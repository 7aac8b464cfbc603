use staten::scalar::Scalar;
use staten::strmap::StrMap;
use staten::template::{substitute, substitute_args};

fn spec_env() -> StrMap<Scalar> {
    let mut env: StrMap<Scalar> = StrMap::new();
    env.insert("SIMPLE".to_string(), Scalar::Text("simple_value".to_string()));
    env.insert("PREFIX".to_string(), Scalar::Text("prefix_".to_string()));
    env.insert("MIDDLE".to_string(), Scalar::Text("middle".to_string()));
    env.insert("SUFFIX".to_string(), Scalar::Text("_suffix".to_string()));
    env.insert("EMBEDDED".to_string(), Scalar::Text("embedded_value".to_string()));
    env.insert("NUMBER".to_string(), Scalar::Int(42));
    env.insert("FLAG".to_string(), Scalar::Bool(true));
    env.insert("PATH_VAR".to_string(), Scalar::Text("/tmp/test".to_string()));
    env
}

#[test]
fn test_substitute_simple() {
    let env = spec_env();
    assert_eq!(substitute("--simple=${SIMPLE}", &env), "--simple=simple_value");
}

#[test]
fn test_substitute_combined() {
    let env = spec_env();
    assert_eq!(
        substitute("--combined=${PREFIX}${MIDDLE}${SUFFIX}", &env),
        "--combined=prefix_middle_suffix"
    );
}

#[test]
fn test_substitute_embedded() {
    let env = spec_env();
    assert_eq!(
        substitute("--embedded=prefix_${EMBEDDED}_suffix", &env),
        "--embedded=prefix_embedded_value_suffix"
    );
}

#[test]
fn test_substitute_numeric_and_flag() {
    let env = spec_env();
    assert_eq!(substitute("--numeric=${NUMBER}", &env), "--numeric=42");
    assert_eq!(substitute("--flag=${FLAG}", &env), "--flag=true");
}

#[test]
fn test_substitute_path() {
    let env = spec_env();
    assert_eq!(substitute("--path=${PATH_VAR}/subdir", &env), "--path=/tmp/test/subdir");
}

#[test]
fn test_substitute_missing_unchanged() {
    let env = spec_env();
    assert_eq!(
        substitute("--missing=${DOES_NOT_EXIST}", &env),
        "--missing=${DOES_NOT_EXIST}"
    );
}

#[test]
fn test_substitute_no_tokens() {
    let env = spec_env();
    assert_eq!(substitute("", &env), "");
    assert_eq!(substitute("plain text", &env), "plain text");
}

#[test]
fn test_substitute_malformed_tokens() {
    let env = spec_env();
    assert_eq!(substitute("${}", &env), "${}");
    assert_eq!(substitute("$SIMPLE", &env), "$SIMPLE");
    assert_eq!(substitute("${SIMPLE", &env), "${SIMPLE");
    assert_eq!(substitute("SIMPLE}", &env), "SIMPLE}");
    assert_eq!(substitute("$", &env), "$");
}

#[test]
fn test_substitute_no_rescan_of_produced_text() {
    let mut env: StrMap<Scalar> = StrMap::new();
    env.insert("A".to_string(), Scalar::Text("${B}".to_string()));
    env.insert("B".to_string(), Scalar::Text("inner".to_string()));
    assert_eq!(substitute("${A}", &env), "${B}");
}

#[test]
fn test_substitute_negative_number() {
    let mut env: StrMap<Scalar> = StrMap::new();
    env.insert("N".to_string(), Scalar::Int(-17));
    env.insert("Z".to_string(), Scalar::Int(0));
    env.insert("OFF".to_string(), Scalar::Bool(false));
    assert_eq!(substitute("${N} ${Z} ${OFF}", &env), "-17 0 false");
}

#[test]
fn test_substitute_fractional_number() {
    let mut env: StrMap<Scalar> = StrMap::new();
    env.insert("RATE".to_string(), Scalar::Num("0.25".to_string()));
    assert_eq!(substitute("--rate=${RATE}", &env), "--rate=0.25");
}

#[test]
fn test_substitute_args_list() {
    let env = spec_env();
    let args = vec![
        "-y".to_string(),
        "server".to_string(),
        "--numeric=${NUMBER}".to_string(),
    ];
    let out = substitute_args(&args, &env);
    assert_eq!(out, vec!["-y", "server", "--numeric=42"]);
}
