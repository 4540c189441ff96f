use fdlimit::{
    finish_install, plan_raise_to_hard, plan_raise_with_ceiling, raise_fd_limit,
    raise_fd_limit_unsupported, raise_fd_limit_with_kernel_ceiling, OsCall, RaiseLimitError,
};

#[test]
fn test_raise_limit() {
    assert!(matches!(raise_fd_limit(), Ok(Some(_))));
}

#[test]
fn raise_lifts_a_lowered_soft_limit() {
    let (_, hard) = rlimit::getrlimit(rlimit::Resource::NOFILE).unwrap();
    let lowered = if hard < 64 { hard } else { 64 };
    rlimit::setrlimit(rlimit::Resource::NOFILE, lowered, hard).unwrap();
    let n = raise_fd_limit().unwrap().unwrap();
    let (soft, hard_after) = rlimit::getrlimit(rlimit::Resource::NOFILE).unwrap();
    assert_eq!(n, hard);
    assert_eq!(soft, hard);
    assert_eq!(hard_after, hard);
}

#[test]
fn second_raise_not_lower() {
    let first = raise_fd_limit().unwrap().unwrap();
    let second = raise_fd_limit().unwrap().unwrap();
    assert!(second >= first);
}

#[test]
fn unsupported_returns_no_limit_and_changes_nothing() {
    let before = rlimit::getrlimit(rlimit::Resource::NOFILE).unwrap();
    let outcome = raise_fd_limit_unsupported();
    let after = rlimit::getrlimit(rlimit::Resource::NOFILE).unwrap();
    assert_eq!(outcome, Ok(None));
    assert_eq!(before, after);
}

#[test]
fn failed_pair_query_is_reported_and_nothing_planned() {
    let r = plan_raise_to_hard(Err(22));
    assert_eq!(
        r,
        Err(RaiseLimitError { method: OsCall::LimitPairQuery, code: 22 })
    );
    assert_eq!(r.unwrap_err().method_name(), "getrlimit");
    let r = plan_raise_with_ceiling(10240, Err(22));
    assert_eq!(
        r,
        Err(RaiseLimitError { method: OsCall::LimitPairQuery, code: 22 })
    );
}

#[test]
fn failed_ceiling_query_is_reported() {
    let r = raise_fd_limit_with_kernel_ceiling(Err(1));
    assert_eq!(
        r,
        Err(RaiseLimitError { method: OsCall::KernelCeilingQuery, code: 1 })
    );
    assert_eq!(r.unwrap_err().method_name(), "libc");
}

#[test]
fn failed_install_is_reported() {
    let r = finish_install(4096, Err(1));
    assert_eq!(r, Err(RaiseLimitError { method: OsCall::Install, code: 1 }));
    assert_eq!(r.unwrap_err().method_name(), "setrlimit");
}

#[test]
fn bsd_family_scenario() {
    assert_eq!(
        plan_raise_with_ceiling(10240, Ok((256, 4096))),
        Ok((4096, 4096))
    );
    assert_eq!(finish_install(4096, Ok(())), Ok(Some(4096)));
}

#[test]
fn linux_family_scenario() {
    assert_eq!(plan_raise_to_hard(Ok((1024, 65536))), Ok((65536, 65536)));
    assert_eq!(finish_install(65536, Ok(())), Ok(Some(65536)));
}

#[test]
fn ceiling_below_hard_caps_the_raise() {
    assert_eq!(plan_raise_with_ceiling(256, Ok((256, 4096))), Ok((256, 4096)));
    assert_eq!(plan_raise_with_ceiling(0, Ok((256, 4096))), Ok((0, 4096)));
}

#[test]
fn unlimited_hard_limit_is_a_large_sentinel() {
    assert_eq!(
        plan_raise_with_ceiling(10240, Ok((256, u64::MAX))),
        Ok((10240, u64::MAX))
    );
    assert_eq!(
        plan_raise_to_hard(Ok((256, u64::MAX))),
        Ok((u64::MAX, u64::MAX))
    );
}

#[test]
fn ceiling_bearing_raise_installs_the_smaller_bound() {
    let (_, hard) = rlimit::getrlimit(rlimit::Resource::NOFILE).unwrap();
    let n = raise_fd_limit_with_kernel_ceiling(Ok(hard)).unwrap().unwrap();
    assert_eq!(n, hard);
    let (soft, _) = rlimit::getrlimit(rlimit::Resource::NOFILE).unwrap();
    assert_eq!(soft, hard);
}
