use postgresql_commands::flags::decimal_string;
use postgresql_commands::flags::pair_token;
use postgresql_commands::flags::ArgumentList;

#[test]
fn decimal_forms() {
    assert_eq!("0", decimal_string(0));
    assert_eq!("7", decimal_string(7));
    assert_eq!("10", decimal_string(10));
    assert_eq!("5432", decimal_string(5432));
    assert_eq!("65535", decimal_string(u16::MAX));
}

#[test]
fn pair_tokens() {
    assert_eq!("ON_ERROR_STOP=1", pair_token("ON_ERROR_STOP", "1"));
    assert_eq!("=", pair_token("", ""));
}

#[test]
fn argument_list_kinds() {
    let mut args = ArgumentList::new();
    args.presence("--on", true);
    args.presence("--off", false);
    args.value("--name", &Some("x y".to_string()));
    args.value("--none", &None);
    args.number("--port", Some(1));
    args.number("--nport", None);
    args.pair("--pair", &Some(("k".to_string(), "v".to_string())));
    args.pair("--npair", &None);
    assert_eq!(
        vec!["--on", "--name", "x y", "--port", "1", "--pair", "k=v"],
        args.into_vec()
    );
}
