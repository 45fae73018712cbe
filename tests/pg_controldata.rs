use postgresql_commands::pg_controldata::PgControlDataBuilder;
use postgresql_commands::traits::CommandBuilder;
use postgresql_commands::traits::CommandToString;

#[test]
fn pg_controldata_test_builder_new() {
    let command = PgControlDataBuilder::new().build();

    assert_eq!(r#""pg_controldata""#, command.to_command_string());
}

#[test]
fn pg_controldata_test_builder() {
    let command = PgControlDataBuilder::new()
        .program_dir("/usr/bin")
        .pgdata("/var/lib/postgresql/data")
        .version()
        .help()
        .build();

    assert_eq!(
        r#""/usr/bin/pg_controldata" "--pgdata" "/var/lib/postgresql/data" "--version" "--help""#,
        command.to_command_string()
    );
}

#[test]
fn pg_controldata_default_matches_new() {
    let command = PgControlDataBuilder::default().build();
    assert_eq!(r#""pg_controldata""#, command.to_command_string());
}
