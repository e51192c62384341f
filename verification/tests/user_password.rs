use gmud_backend::user::verify_user_password;

#[test]
fn should_verify_correct_password() {
    let hash = bcrypt::hash("123456", bcrypt::DEFAULT_COST).expect("hash");
    let result = verify_user_password("123456", &hash).expect("verify");
    assert!(result);
}

#[test]
fn should_reject_wrong_password() {
    let hash = bcrypt::hash("123456", bcrypt::DEFAULT_COST).expect("hash");
    let result = verify_user_password("wrong", &hash).expect("verify");
    assert!(!result);
}
