use postgresql_commands::render::quote;
use postgresql_commands::traits::CommandBuilder;
use postgresql_commands::traits::CommandToString;
use postgresql_commands::traits::Invocation;

struct TestCommandBuilder {
    program_dir: Option<String>,
    args: Vec<String>,
}

impl CommandBuilder for TestCommandBuilder {
    fn get_program(&self) -> &'static str {
        "test"
    }

    fn get_program_dir(&self) -> &Option<String> {
        &self.program_dir
    }

    fn get_args(&self) -> Vec<String> {
        self.args.clone()
    }
}

#[test]
fn test_standard_command_builder() {
    let builder = TestCommandBuilder {
        program_dir: Some("/tmp".to_string()),
        args: vec!["--help".to_string()],
    };
    let command = builder.build();

    assert_eq!(r#""/tmp/test" "--help""#, command.to_command_string());
}

#[test]
fn test_standard_to_command_string() {
    let mut command = Invocation::new("foo");
    command.current_dir("/tmp");
    command.arg("-l");
    assert_eq!(r#"cd "/tmp" && "foo" "-l""#, command.to_command_string(),);
}

#[test]
fn invocation_accessors() {
    let mut command = Invocation::new("foo");
    assert_eq!(&None, command.get_current_dir());
    command.arg("a");
    command.arg("b");
    command.current_dir("/srv");
    assert_eq!("foo", command.get_program_file());
    assert_eq!(&vec!["a".to_string(), "b".to_string()], command.get_args());
    assert_eq!(&Some("/srv".to_string()), command.get_current_dir());
}

#[test]
fn quote_escapes_bytes() {
    assert_eq!(r#""plain""#, quote("plain"));
    assert_eq!(r#""""#, quote(""));
    assert_eq!(r#""a\"b""#, quote("a\"b"));
    assert_eq!(r#""it\'s""#, quote("it's"));
    assert_eq!(r#""back\\slash""#, quote("back\\slash"));
    assert_eq!(r#""\t\r\n""#, quote("\t\r\n"));
    assert_eq!(r#""caf\xc3\xa9""#, quote("café"));
    assert_eq!(r#""\x00\x7f""#, quote("\u{0}\u{7f}"));
}

struct Absolute {
    program_dir: Option<String>,
}

impl CommandBuilder for Absolute {
    fn get_program(&self) -> &'static str {
        "/bin/true"
    }

    fn get_program_dir(&self) -> &Option<String> {
        &self.program_dir
    }

    fn get_args(&self) -> Vec<String> {
        Vec::new()
    }
}

#[test]
fn absolute_program_name_replaces_directory() {
    assert_eq!("/bin/true", Absolute { program_dir: Some("/usr/local".to_string()) }.get_program_file());
    assert_eq!("/bin/true", Absolute { program_dir: None }.get_program_file());
}
