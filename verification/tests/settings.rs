use croutond::io_error::IoErrorKind;
use croutond::settings::{
    args_from_words, parse_cooldown_secs, parse_env_args, parse_interval_ms, parse_pool_size,
    resolve_max_pool_size, resolve_program_and_args, EnvValue,
};

#[test]
fn pool_sizes_are_positive_numbers() {
    assert_eq!(parse_pool_size("4"), Ok(4));
    assert_eq!(parse_pool_size("18446744073709551615"), Ok(usize::MAX));
    assert_eq!(parse_pool_size("0"), Err("pool size must be at least 1".to_string()));
    assert_eq!(parse_pool_size("-1"), Err("invalid pool size: -1".to_string()));
    assert_eq!(parse_pool_size(""), Err("invalid pool size: ".to_string()));
    assert_eq!(
        parse_pool_size("18446744073709551616"),
        Err("invalid pool size: 18446744073709551616".to_string())
    );
    for n in [1_usize, 10, 4096, usize::MAX] {
        assert_eq!(parse_pool_size(&n.to_string()), Ok(n));
    }
}

#[test]
fn cooldowns_are_positive_numbers() {
    assert_eq!(parse_cooldown_secs("15"), Ok(15));
    assert_eq!(
        parse_cooldown_secs("0"),
        Err("scale-down cooldown must be at least 1 second".to_string())
    );
    assert_eq!(parse_cooldown_secs("1s"), Err("invalid cooldown seconds: 1s".to_string()));
}

#[test]
fn intervals_are_positive_numbers() {
    assert_eq!(parse_interval_ms("1000"), Ok(1000));
    assert_eq!(
        parse_interval_ms("0"),
        Err("autoscale interval must be at least 1 millisecond".to_string())
    );
    assert_eq!(
        parse_interval_ms("x"),
        Err("invalid autoscale interval milliseconds: x".to_string())
    );
}

#[test]
fn the_largest_size_is_not_below_the_smallest() {
    assert_eq!(resolve_max_pool_size(4, None).expect("the smallest"), 4);
    assert_eq!(resolve_max_pool_size(4, Some(9)).expect("larger"), 9);
    let error = resolve_max_pool_size(4, Some(3)).expect_err("smaller");
    assert_eq!(error.kind, IoErrorKind::InvalidInput);
    assert_eq!(error.message, "--max-pool-size (3) must be >= --pool-size (4)");
}

#[test]
fn arguments_are_split_as_a_shell_does() {
    let args = parse_env_args(EnvValue::Present("-v 'a b' c\\ d \"e\" # rest".to_string()));
    assert_eq!(
        args,
        Ok(vec![b"-v".to_vec(), b"a b".to_vec(), b"c d".to_vec(), b"e".to_vec()])
    );
    assert_eq!(parse_env_args(EnvValue::Present(String::new())), Ok(Vec::new()));
    assert_eq!(parse_env_args(EnvValue::NotPresent), Ok(Vec::new()));
    assert_eq!(
        parse_env_args(EnvValue::Present("'open".to_string())),
        Err("invalid CLOUD_HYPERVISOR_ARGS: could not parse shell-style arguments".to_string())
    );
    assert_eq!(
        parse_env_args(EnvValue::NotUnicode),
        Err("invalid CLOUD_HYPERVISOR_ARGS: value is not valid Unicode".to_string())
    );
}

#[test]
fn words_become_arguments() {
    assert_eq!(
        args_from_words(Some(vec!["ä".to_string(), String::new()])),
        Ok(vec![vec![0xc3, 0xa4], Vec::new()])
    );
    assert_eq!(
        args_from_words(None),
        Err("invalid CLOUD_HYPERVISOR_ARGS: could not parse shell-style arguments".to_string())
    );
}

#[test]
fn the_program_is_taken_as_it_is() {
    assert_eq!(
        resolve_program_and_args("ch x".to_string(), EnvValue::Present("a b".to_string())),
        Ok(("ch x".to_string(), vec![b"a".to_vec(), b"b".to_vec()]))
    );
    assert_eq!(
        resolve_program_and_args("ch".to_string(), EnvValue::NotUnicode),
        Err("invalid CLOUD_HYPERVISOR_ARGS: value is not valid Unicode".to_string())
    );
}
