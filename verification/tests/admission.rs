use blackflower::admission::{AdmissionExhausted, IssuedResume, LoopbackSessionAuthority, ResumeRejection};

const RECONNECT_WINDOW_NANOS: u64 = 30_000_000_000;
const SECOND: u64 = 1_000_000_000;

#[test]
fn reissued_resume_credentials_do_not_revalidate_consumed_bytes() {
    let mut authority: LoopbackSessionAuthority<u64> = LoopbackSessionAuthority::new();
    let claims = authority.next_identity().expect("identity");
    let key = [5u8; 24];
    let first = authority.issue_resume(claims, &key, 0, RECONNECT_WINDOW_NANOS).expect("first");
    assert_eq!(authority.consume_resume(&first.token, SECOND), Ok(claims));
    let second = authority.issue_resume(claims, &key, SECOND, RECONNECT_WINDOW_NANOS).expect("second");

    assert_ne!(first.token, second.token);
    assert_eq!(authority.consume_resume(&first.token, 2 * SECOND), Err(ResumeRejection::Invalid));
    assert!(authority.consume_resume(&second.token, 2 * SECOND).is_ok());
}

#[test]
fn credentials_expire_and_are_single_use() {
    let mut authority: LoopbackSessionAuthority<u64> = LoopbackSessionAuthority::new();
    assert_eq!(authority.consume_resume(&[7], 0), Err(ResumeRejection::Expired));
    assert_eq!(authority.next_identity(), Ok(1));
    assert_eq!(authority.next_identity(), Ok(2));
    let issued = authority.issue_resume(2, &[7], 10, 5).expect("issued");
    assert_eq!(issued, IssuedResume { token: vec![7, 0, 0, 0, 0, 0, 0, 0, 0], expires_at: 15 });
    assert_eq!(authority.consume_resume(&[7], 15), Err(ResumeRejection::Invalid));
    assert_eq!(authority.consume_resume(&[8, 0, 0, 0, 0, 0, 0, 0, 0], 15), Err(ResumeRejection::Invalid));
    assert_eq!(authority.consume_resume(&issued.token, 15), Ok(2));
    assert_eq!(authority.consume_resume(&issued.token, 15), Err(ResumeRejection::Replayed));
    assert_eq!(authority.consume_resume(&issued.token, 16), Err(ResumeRejection::Expired));
    let later = authority.issue_resume(3, &[9], u64::MAX - 1, 5).expect("later");
    assert_eq!(later.expires_at, u64::MAX);
    assert_eq!(later.token, vec![9, 1, 0, 0, 0, 0, 0, 0, 0]);
    let _exhausted: Option<AdmissionExhausted> = None;
}

#[test]
fn issue_numbers_follow_the_key_least_significant_byte_first() {
    let mut authority: LoopbackSessionAuthority<u64> = LoopbackSessionAuthority::new();
    let mut last = Vec::new();
    for n in 0..300u32 {
        let issued = authority.issue_resume(1, &[0xaa, 0xbb], 0, 1).expect("issued");
        assert_eq!(&issued.token[..2], &[0xaa, 0xbb]);
        assert_eq!(issued.token[2], (n & 0xff) as u8);
        assert_eq!(issued.token[3], (n >> 8) as u8);
        assert_ne!(issued.token, last);
        last = issued.token;
    }
}
