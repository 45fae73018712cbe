use postgresql_commands::pg_isready::PgIsReadyBuilder;
use postgresql_commands::traits::CommandBuilder;
use postgresql_commands::traits::CommandToString;

#[test]
fn pg_isready_test_builder_new() {
    let command = PgIsReadyBuilder::new().build();

    assert_eq!(r#""pg_isready""#, command.to_command_string());
}

#[test]
fn pg_isready_test_builder() {
    let command = PgIsReadyBuilder::new()
        .program_dir("/usr/bin")
        .dbname("postgres")
        .quiet()
        .version()
        .help()
        .host("localhost")
        .port(5432)
        .timeout(3)
        .username("postgres")
        .build();

    assert_eq!(
        r#""/usr/bin/pg_isready" "--dbname" "postgres" "--quiet" "--version" "--help" "--host" "localhost" "--port" "5432" "--timeout" "3" "--username" "postgres""#,
        command.to_command_string()
    );
}

#[test]
fn pg_isready_tokens_in_declared_order() {
    let builder = PgIsReadyBuilder::new()
        .port(5432)
        .host("localhost")
        .quiet()
        .dbname("postgres");
    let args = builder.get_args();
    assert_eq!(
        vec!["--dbname", "postgres", "--quiet", "--host", "localhost", "--port", "5432"],
        args
    );
}

#[test]
fn pg_isready_value_follows_flag_name() {
    let args = PgIsReadyBuilder::new().username("alice").timeout(0).get_args();
    assert_eq!(vec!["--timeout", "0", "--username", "alice"], args);
}

#[test]
fn pg_isready_building_twice_is_identical() {
    let builder = PgIsReadyBuilder::new().dbname("postgres").port(65535);
    let first = builder.clone().build();
    let second = builder.build();
    assert_eq!(first.get_program_file(), second.get_program_file());
    assert_eq!(first.get_args(), second.get_args());
    assert_eq!(first.to_command_string(), second.to_command_string());
}

#[test]
fn pg_isready_program_file_resolution() {
    assert_eq!("pg_isready", PgIsReadyBuilder::new().get_program_file());
    assert_eq!("/opt/pg/bin/pg_isready", PgIsReadyBuilder::new().program_dir("/opt/pg/bin").get_program_file());
    assert_eq!("/opt/pg/bin/pg_isready", PgIsReadyBuilder::new().program_dir("/opt/pg/bin/").get_program_file());
    assert_eq!("pg_isready", PgIsReadyBuilder::new().program_dir("").get_program_file());
    assert_eq!("bin/pg_isready", PgIsReadyBuilder::new().program_dir("bin").get_program_file());
}
