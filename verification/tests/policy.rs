use rnb_runtime::policy::{
    env_falsey, env_is, env_truthy, env_unless_falsey, falsey, layer_matches_spec, truthy,
};

#[test]
fn layer_matches_spec_accepts_ranges_and_values() {
    assert!(layer_matches_spec("1,3-5,8", 1));
    assert!(layer_matches_spec("1,3-5,8", 4));
    assert!(layer_matches_spec("1,3-5,8", 8));
    assert!(!layer_matches_spec("1,3-5,8", 2));
    assert!(!layer_matches_spec("5-3", 4));
    assert!(!layer_matches_spec("bad", 4));
}

#[test]
fn no_word_is_truthy_and_falsey() {
    for word in ["1", "true", "on", "yes", "0", "false", "off", "no", "", "maybe"] {
        assert!(!(truthy(word) && falsey(word)));
        assert_eq!(env_truthy(Some(word)), truthy(word));
        assert_eq!(env_falsey(Some(word)), falsey(word));
        assert_eq!(env_unless_falsey(Some(word), false), !falsey(word));
    }
    assert!(truthy("1"));
    assert!(falsey("0"));
}

#[test]
fn an_unset_variable_keeps_the_default() {
    assert!(!env_truthy(None));
    assert!(!env_falsey(None));
    assert!(env_unless_falsey(None, true));
    assert!(!env_unless_falsey(None, false));
    assert!(!env_is(None, "1"));
    assert!(env_is(Some("1"), "1"));
    assert!(!env_is(Some("1 "), "1"));
}
