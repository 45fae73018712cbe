use std::path::PathBuf;

use postgresql_commands::psql::PsqlBuilder;
use postgresql_commands::traits::CommandBuilder;
use postgresql_commands::traits::CommandToString;

#[test]
fn psql_test_builder_new() {
    let command = PsqlBuilder::new().program_dir(".").build();

    assert_eq!(
        PathBuf::from(".").join("psql"),
        PathBuf::from(command.to_command_string().replace("\"", ""))
    );
}

#[test]
fn psql_test_builder() {
    let command = PsqlBuilder::new()
        .command("SELECT * FROM test")
        .dbname("dbname")
        .file("test.sql")
        .list()
        .variable(("ON_ERROR_STOP", "1"))
        .version()
        .no_psqlrc()
        .single_transaction()
        .help("options")
        .echo_all()
        .echo_errors()
        .echo_queries()
        .echo_hidden()
        .log_file("psql.log")
        .no_readline()
        .output("output.txt")
        .quiet()
        .single_step()
        .single_line()
        .no_align()
        .csv()
        .field_separator("|")
        .html()
        .pset(("border", "1"))
        .record_separator("\n")
        .tuples_only()
        .table_attr("width=100")
        .expanded()
        .field_separator_zero()
        .record_separator_zero()
        .host("localhost")
        .port(5432)
        .username("postgres")
        .no_password()
        .password()
        .build();

    assert_eq!(
        r#""psql" "--command" "SELECT * FROM test" "--dbname" "dbname" "--file" "test.sql" "--list" "--variable" "ON_ERROR_STOP=1" "--version" "--no-psqlrc" "--single-transaction" "--help" "options" "--echo-all" "--echo-errors" "--echo-queries" "--echo-hidden" "--log-file" "psql.log" "--no-readline" "--output" "output.txt" "--quiet" "--single-step" "--single-line" "--no-align" "--csv" "--field-separator" "|" "--html" "--pset" "border=1" "--record-separator" "\n" "--tuples-only" "--table-attr" "width=100" "--expanded" "--field-separator-zero" "--record-separator-zero" "--host" "localhost" "--port" "5432" "--username" "postgres" "--no-password" "--password""#,
        command.to_command_string()
    );
}

#[test]
fn psql_unset_renders_bare_name() {
    assert_eq!(r#""psql""#, PsqlBuilder::new().build().to_command_string());
    assert!(PsqlBuilder::new().get_args().is_empty());
}

#[test]
fn psql_paired_flag_joins_with_one_equals() {
    let args = PsqlBuilder::new().variable(("A", "b=c")).get_args();
    assert_eq!(vec!["--variable", "A=b=c"], args);
    let args = PsqlBuilder::new().pset(("", "")).get_args();
    assert_eq!(vec!["--pset", "="], args);
}

#[test]
fn psql_values_are_not_shell_quoted() {
    let args = PsqlBuilder::new().command("SELECT 'a b';").get_args();
    assert_eq!(vec!["--command", "SELECT 'a b';"], args);
}
