//! psql is the PostgreSQL interactive terminal.

use vstd::prelude::*;
use crate::flags::ArgumentList;
use crate::flags::flatten;
use crate::flags::lemma_flatten_unset;
use crate::flags::opt_decimal;
use crate::flags::opt_pair_chars;
use crate::flags::paired_flag;
use crate::flags::presence_flag;
use crate::flags::value_flag;
use crate::render::is_plain;
use crate::render::is_plain_char;
use crate::traits::CommandBuilder;
use crate::traits::built;
use crate::traits::command_line;
use crate::traits::lemma_bare_name_rendered;
use crate::traits::opt_chars;

verus! {

/// Builds a `psql` invocation.
#[derive(Clone, Debug)]
pub struct PsqlBuilder {
    program_dir: Option<String>,
    command: Option<String>,
    dbname: Option<String>,
    file: Option<String>,
    list: bool,
    variable: Option<(String, String)>,
    version: bool,
    no_psqlrc: bool,
    single_transaction: bool,
    help: Option<String>,
    echo_all: bool,
    echo_errors: bool,
    echo_queries: bool,
    echo_hidden: bool,
    log_file: Option<String>,
    no_readline: bool,
    output: Option<String>,
    quiet: bool,
    single_step: bool,
    single_line: bool,
    no_align: bool,
    csv: bool,
    field_separator: Option<String>,
    html: bool,
    pset: Option<(String, String)>,
    record_separator: Option<String>,
    tuples_only: bool,
    table_attr: Option<String>,
    expanded: bool,
    field_separator_zero: bool,
    record_separator_zero: bool,
    host: Option<String>,
    port: Option<u16>,
    username: Option<String>,
    no_password: bool,
    password: bool,
}

/// The fields of a [`PsqlBuilder`], unset ones as `None` or `false`.
pub struct PsqlView {
    pub program_dir: Option<Seq<char>>,
    pub command: Option<Seq<char>>,
    pub dbname: Option<Seq<char>>,
    pub file: Option<Seq<char>>,
    pub list: bool,
    pub variable: Option<(Seq<char>, Seq<char>)>,
    pub version: bool,
    pub no_psqlrc: bool,
    pub single_transaction: bool,
    pub help: Option<Seq<char>>,
    pub echo_all: bool,
    pub echo_errors: bool,
    pub echo_queries: bool,
    pub echo_hidden: bool,
    pub log_file: Option<Seq<char>>,
    pub no_readline: bool,
    pub output: Option<Seq<char>>,
    pub quiet: bool,
    pub single_step: bool,
    pub single_line: bool,
    pub no_align: bool,
    pub csv: bool,
    pub field_separator: Option<Seq<char>>,
    pub html: bool,
    pub pset: Option<(Seq<char>, Seq<char>)>,
    pub record_separator: Option<Seq<char>>,
    pub tuples_only: bool,
    pub table_attr: Option<Seq<char>>,
    pub expanded: bool,
    pub field_separator_zero: bool,
    pub record_separator_zero: bool,
    pub host: Option<Seq<char>>,
    pub port: Option<u16>,
    pub username: Option<Seq<char>>,
    pub no_password: bool,
    pub password: bool,
}

impl PsqlView {
    /// No field set.
    pub open spec fn unset() -> PsqlView {
        PsqlView {
            program_dir: None,
            command: None,
            dbname: None,
            file: None,
            list: false,
            variable: None,
            version: false,
            no_psqlrc: false,
            single_transaction: false,
            help: None,
            echo_all: false,
            echo_errors: false,
            echo_queries: false,
            echo_hidden: false,
            log_file: None,
            no_readline: false,
            output: None,
            quiet: false,
            single_step: false,
            single_line: false,
            no_align: false,
            csv: false,
            field_separator: None,
            html: false,
            pset: None,
            record_separator: None,
            tuples_only: false,
            table_attr: None,
            expanded: false,
            field_separator_zero: false,
            record_separator_zero: false,
            host: None,
            port: None,
            username: None,
            no_password: false,
            password: false,
        }
    }
}

/// The tokens of each flag, in the declared order.
pub open spec fn psql_segments(v: PsqlView) -> Seq<Seq<Seq<char>>> {
    psql_connection_segments(v, psql_format_segments(v, psql_io_segments(v, psql_general_segments(v, seq![]))))
}

/// General options, after the tokens of the flags before them.
pub open spec fn psql_general_segments(v: PsqlView, before: Seq<Seq<Seq<char>>>) -> Seq<Seq<Seq<char>>> {
    before
        .push(value_flag("--command"@, v.command))
        .push(value_flag("--dbname"@, v.dbname))
        .push(value_flag("--file"@, v.file))
        .push(presence_flag("--list"@, v.list))
        .push(paired_flag("--variable"@, v.variable))
        .push(presence_flag("--version"@, v.version))
        .push(presence_flag("--no-psqlrc"@, v.no_psqlrc))
        .push(presence_flag("--single-transaction"@, v.single_transaction))
        .push(value_flag("--help"@, v.help))
}

/// Input and output options, after the tokens of the flags before them.
pub open spec fn psql_io_segments(v: PsqlView, before: Seq<Seq<Seq<char>>>) -> Seq<Seq<Seq<char>>> {
    before
        .push(presence_flag("--echo-all"@, v.echo_all))
        .push(presence_flag("--echo-errors"@, v.echo_errors))
        .push(presence_flag("--echo-queries"@, v.echo_queries))
        .push(presence_flag("--echo-hidden"@, v.echo_hidden))
        .push(value_flag("--log-file"@, v.log_file))
        .push(presence_flag("--no-readline"@, v.no_readline))
        .push(value_flag("--output"@, v.output))
        .push(presence_flag("--quiet"@, v.quiet))
        .push(presence_flag("--single-step"@, v.single_step))
        .push(presence_flag("--single-line"@, v.single_line))
}

/// Output format options, after the tokens of the flags before them.
pub open spec fn psql_format_segments(v: PsqlView, before: Seq<Seq<Seq<char>>>) -> Seq<Seq<Seq<char>>> {
    before
        .push(presence_flag("--no-align"@, v.no_align))
        .push(presence_flag("--csv"@, v.csv))
        .push(value_flag("--field-separator"@, v.field_separator))
        .push(presence_flag("--html"@, v.html))
        .push(paired_flag("--pset"@, v.pset))
        .push(value_flag("--record-separator"@, v.record_separator))
        .push(presence_flag("--tuples-only"@, v.tuples_only))
        .push(value_flag("--table-attr"@, v.table_attr))
        .push(presence_flag("--expanded"@, v.expanded))
        .push(presence_flag("--field-separator-zero"@, v.field_separator_zero))
        .push(presence_flag("--record-separator-zero"@, v.record_separator_zero))
}

/// Connection options, after the tokens of the flags before them.
pub open spec fn psql_connection_segments(v: PsqlView, before: Seq<Seq<Seq<char>>>) -> Seq<Seq<Seq<char>>> {
    before
        .push(value_flag("--host"@, v.host))
        .push(value_flag("--port"@, opt_decimal(v.port)))
        .push(value_flag("--username"@, v.username))
        .push(presence_flag("--no-password"@, v.no_password))
        .push(presence_flag("--password"@, v.password))
}

impl View for PsqlBuilder {
    type V = PsqlView;

    closed spec fn view(&self) -> PsqlView {
        PsqlView {
            program_dir: opt_chars(self.program_dir),
            command: opt_chars(self.command),
            dbname: opt_chars(self.dbname),
            file: opt_chars(self.file),
            list: self.list,
            variable: opt_pair_chars(self.variable),
            version: self.version,
            no_psqlrc: self.no_psqlrc,
            single_transaction: self.single_transaction,
            help: opt_chars(self.help),
            echo_all: self.echo_all,
            echo_errors: self.echo_errors,
            echo_queries: self.echo_queries,
            echo_hidden: self.echo_hidden,
            log_file: opt_chars(self.log_file),
            no_readline: self.no_readline,
            output: opt_chars(self.output),
            quiet: self.quiet,
            single_step: self.single_step,
            single_line: self.single_line,
            no_align: self.no_align,
            csv: self.csv,
            field_separator: opt_chars(self.field_separator),
            html: self.html,
            pset: opt_pair_chars(self.pset),
            record_separator: opt_chars(self.record_separator),
            tuples_only: self.tuples_only,
            table_attr: opt_chars(self.table_attr),
            expanded: self.expanded,
            field_separator_zero: self.field_separator_zero,
            record_separator_zero: self.record_separator_zero,
            host: opt_chars(self.host),
            port: self.port,
            username: opt_chars(self.username),
            no_password: self.no_password,
            password: self.password,
        }
    }
}

impl Default for PsqlBuilder {
    fn default() -> (r: PsqlBuilder)
        ensures
            r@ == PsqlView::unset(),
    {
        PsqlBuilder::new()
    }
}

impl PsqlBuilder {
    /// A builder with no field set.
    pub fn new() -> (r: PsqlBuilder)
        ensures
            r@ == PsqlView::unset(),
    {
        PsqlBuilder {
            program_dir: None,
            command: None,
            dbname: None,
            file: None,
            list: false,
            variable: None,
            version: false,
            no_psqlrc: false,
            single_transaction: false,
            help: None,
            echo_all: false,
            echo_errors: false,
            echo_queries: false,
            echo_hidden: false,
            log_file: None,
            no_readline: false,
            output: None,
            quiet: false,
            single_step: false,
            single_line: false,
            no_align: false,
            csv: false,
            field_separator: None,
            html: false,
            pset: None,
            record_separator: None,
            tuples_only: false,
            table_attr: None,
            expanded: false,
            field_separator_zero: false,
            record_separator_zero: false,
            host: None,
            port: None,
            username: None,
            no_password: false,
            password: false,
        }
    }

    /// Location of the program binary.
    pub fn program_dir(self, program_dir: &str) -> (r: PsqlBuilder)
        ensures
            r@ == (PsqlView { program_dir: Some(program_dir@), ..self@ }),
    {
        PsqlBuilder { program_dir: Some(String::from_str(program_dir)), ..self }
    }

    /// Run only a single command (SQL or internal) and exit.
    pub fn command(self, command: &str) -> (r: PsqlBuilder)
        ensures
            r@ == (PsqlView { command: Some(command@), ..self@ }),
    {
        PsqlBuilder { command: Some(String::from_str(command)), ..self }
    }

    /// The database name to connect to.
    pub fn dbname(self, dbname: &str) -> (r: PsqlBuilder)
        ensures
            r@ == (PsqlView { dbname: Some(dbname@), ..self@ }),
    {
        PsqlBuilder { dbname: Some(String::from_str(dbname)), ..self }
    }

    /// Execute commands from a file, then exit.
    pub fn file(self, file: &str) -> (r: PsqlBuilder)
        ensures
            r@ == (PsqlView { file: Some(file@), ..self@ }),
    {
        PsqlBuilder { file: Some(String::from_str(file)), ..self }
    }

    /// List available databases, then exit.
    pub fn list(self) -> (r: PsqlBuilder)
        ensures
            r@ == (PsqlView { list: true, ..self@ }),
    {
        PsqlBuilder { list: true, ..self }
    }

    /// Set psql variable NAME to VALUE (e.g., `ON_ERROR_STOP=1`).
    pub fn variable(self, variable: (&str, &str)) -> (r: PsqlBuilder)
        ensures
            r@ == (PsqlView { variable: Some((variable.0@, variable.1@)), ..self@ }),
    {
        let (key, value) = variable;
        PsqlBuilder { variable: Some((String::from_str(key), String::from_str(value))), ..self }
    }

    /// Output version information, then exit.
    pub fn version(self) -> (r: PsqlBuilder)
        ensures
            r@ == (PsqlView { version: true, ..self@ }),
    {
        PsqlBuilder { version: true, ..self }
    }

    /// Do not read the startup file (`~/.psqlrc`).
    pub fn no_psqlrc(self) -> (r: PsqlBuilder)
        ensures
            r@ == (PsqlView { no_psqlrc: true, ..self@ }),
    {
        PsqlBuilder { no_psqlrc: true, ..self }
    }

    /// Execute as a single transaction (if non-interactive).
    pub fn single_transaction(self) -> (r: PsqlBuilder)
        ensures
            r@ == (PsqlView { single_transaction: true, ..self@ }),
    {
        PsqlBuilder { single_transaction: true, ..self }
    }

    /// Show help, then exit; one of `options`, `commands`, `variables`.
    pub fn help(self, help: &str) -> (r: PsqlBuilder)
        ensures
            r@ == (PsqlView { help: Some(help@), ..self@ }),
    {
        PsqlBuilder { help: Some(String::from_str(help)), ..self }
    }

    /// Echo all input from the script.
    pub fn echo_all(self) -> (r: PsqlBuilder)
        ensures
            r@ == (PsqlView { echo_all: true, ..self@ }),
    {
        PsqlBuilder { echo_all: true, ..self }
    }

    /// Echo failed commands.
    pub fn echo_errors(self) -> (r: PsqlBuilder)
        ensures
            r@ == (PsqlView { echo_errors: true, ..self@ }),
    {
        PsqlBuilder { echo_errors: true, ..self }
    }

    /// Echo commands sent to the server.
    pub fn echo_queries(self) -> (r: PsqlBuilder)
        ensures
            r@ == (PsqlView { echo_queries: true, ..self@ }),
    {
        PsqlBuilder { echo_queries: true, ..self }
    }

    /// Display queries that internal commands generate.
    pub fn echo_hidden(self) -> (r: PsqlBuilder)
        ensures
            r@ == (PsqlView { echo_hidden: true, ..self@ }),
    {
        PsqlBuilder { echo_hidden: true, ..self }
    }

    /// Send the session log to a file.
    pub fn log_file(self, log_file: &str) -> (r: PsqlBuilder)
        ensures
            r@ == (PsqlView { log_file: Some(log_file@), ..self@ }),
    {
        PsqlBuilder { log_file: Some(String::from_str(log_file)), ..self }
    }

    /// Disable enhanced command line editing (readline).
    pub fn no_readline(self) -> (r: PsqlBuilder)
        ensures
            r@ == (PsqlView { no_readline: true, ..self@ }),
    {
        PsqlBuilder { no_readline: true, ..self }
    }

    /// Send query results to a file (or `|pipe`).
    pub fn output(self, output: &str) -> (r: PsqlBuilder)
        ensures
            r@ == (PsqlView { output: Some(output@), ..self@ }),
    {
        PsqlBuilder { output: Some(String::from_str(output)), ..self }
    }

    /// Run quietly (no messages, only query output).
    pub fn quiet(self) -> (r: PsqlBuilder)
        ensures
            r@ == (PsqlView { quiet: true, ..self@ }),
    {
        PsqlBuilder { quiet: true, ..self }
    }

    /// Single-step mode (confirm each query).
    pub fn single_step(self) -> (r: PsqlBuilder)
        ensures
            r@ == (PsqlView { single_step: true, ..self@ }),
    {
        PsqlBuilder { single_step: true, ..self }
    }

    /// Single-line mode (end of line terminates an SQL command).
    pub fn single_line(self) -> (r: PsqlBuilder)
        ensures
            r@ == (PsqlView { single_line: true, ..self@ }),
    {
        PsqlBuilder { single_line: true, ..self }
    }

    /// Unaligned table output mode.
    pub fn no_align(self) -> (r: PsqlBuilder)
        ensures
            r@ == (PsqlView { no_align: true, ..self@ }),
    {
        PsqlBuilder { no_align: true, ..self }
    }

    /// CSV (Comma-Separated Values) table output mode.
    pub fn csv(self) -> (r: PsqlBuilder)
        ensures
            r@ == (PsqlView { csv: true, ..self@ }),
    {
        PsqlBuilder { csv: true, ..self }
    }

    /// Field separator for unaligned output (default: `|`).
    pub fn field_separator(self, field_separator: &str) -> (r: PsqlBuilder)
        ensures
            r@ == (PsqlView { field_separator: Some(field_separator@), ..self@ }),
    {
        PsqlBuilder { field_separator: Some(String::from_str(field_separator)), ..self }
    }

    /// HTML table output mode.
    pub fn html(self) -> (r: PsqlBuilder)
        ensures
            r@ == (PsqlView { html: true, ..self@ }),
    {
        PsqlBuilder { html: true, ..self }
    }

    /// Set printing option VAR to ARG (see the `\pset` command).
    pub fn pset(self, pset: (&str, &str)) -> (r: PsqlBuilder)
        ensures
            r@ == (PsqlView { pset: Some((pset.0@, pset.1@)), ..self@ }),
    {
        let (key, value) = pset;
        PsqlBuilder { pset: Some((String::from_str(key), String::from_str(value))), ..self }
    }

    /// Record separator for unaligned output (default: newline).
    pub fn record_separator(self, record_separator: &str) -> (r: PsqlBuilder)
        ensures
            r@ == (PsqlView { record_separator: Some(record_separator@), ..self@ }),
    {
        PsqlBuilder { record_separator: Some(String::from_str(record_separator)), ..self }
    }

    /// Print rows only.
    pub fn tuples_only(self) -> (r: PsqlBuilder)
        ensures
            r@ == (PsqlView { tuples_only: true, ..self@ }),
    {
        PsqlBuilder { tuples_only: true, ..self }
    }

    /// HTML table tag attributes (e.g., width, border).
    pub fn table_attr(self, table_attr: &str) -> (r: PsqlBuilder)
        ensures
            r@ == (PsqlView { table_attr: Some(table_attr@), ..self@ }),
    {
        PsqlBuilder { table_attr: Some(String::from_str(table_attr)), ..self }
    }

    /// Turn on expanded table output.
    pub fn expanded(self) -> (r: PsqlBuilder)
        ensures
            r@ == (PsqlView { expanded: true, ..self@ }),
    {
        PsqlBuilder { expanded: true, ..self }
    }

    /// Set the field separator for unaligned output to a zero byte.
    pub fn field_separator_zero(self) -> (r: PsqlBuilder)
        ensures
            r@ == (PsqlView { field_separator_zero: true, ..self@ }),
    {
        PsqlBuilder { field_separator_zero: true, ..self }
    }

    /// Set the record separator for unaligned output to a zero byte.
    pub fn record_separator_zero(self) -> (r: PsqlBuilder)
        ensures
            r@ == (PsqlView { record_separator_zero: true, ..self@ }),
    {
        PsqlBuilder { record_separator_zero: true, ..self }
    }

    /// The database server host or socket directory.
    pub fn host(self, host: &str) -> (r: PsqlBuilder)
        ensures
            r@ == (PsqlView { host: Some(host@), ..self@ }),
    {
        PsqlBuilder { host: Some(String::from_str(host)), ..self }
    }

    /// The database server port.
    pub fn port(self, port: u16) -> (r: PsqlBuilder)
        ensures
            r@ == (PsqlView { port: Some(port), ..self@ }),
    {
        PsqlBuilder { port: Some(port), ..self }
    }

    /// The database user name.
    pub fn username(self, username: &str) -> (r: PsqlBuilder)
        ensures
            r@ == (PsqlView { username: Some(username@), ..self@ }),
    {
        PsqlBuilder { username: Some(String::from_str(username)), ..self }
    }

    /// Never prompt for a password.
    pub fn no_password(self) -> (r: PsqlBuilder)
        ensures
            r@ == (PsqlView { no_password: true, ..self@ }),
    {
        PsqlBuilder { no_password: true, ..self }
    }

    /// Force a password prompt (should happen automatically).
    pub fn password(self) -> (r: PsqlBuilder)
        ensures
            r@ == (PsqlView { password: true, ..self@ }),
    {
        PsqlBuilder { password: true, ..self }
    }
}

impl CommandBuilder for PsqlBuilder {
    open spec fn program_name(&self) -> Seq<char> {
        "psql"@
    }

    open spec fn program_dir_view(&self) -> Option<Seq<char>> {
        self@.program_dir
    }

    open spec fn args_view(&self) -> Seq<Seq<char>> {
        flatten(psql_segments(self@))
    }

    fn get_program(&self) -> (r: &'static str) {
        "psql"
    }

    fn get_program_dir(&self) -> (r: &Option<String>) {
        &self.program_dir
    }

    fn get_args(&self) -> (r: Vec<String>) {
        let mut args = ArgumentList::new();
        self.push_general(&mut args);
        self.push_input_output(&mut args);
        self.push_format(&mut args);
        self.push_connection(&mut args);
        assert(args.segments() =~= psql_segments(self@));
        args.into_vec()
    }
}

impl PsqlBuilder {

    fn push_general(&self, args: &mut ArgumentList)
        requires
            old(args).wf(),
        ensures
            final(args).wf(),
            final(args).segments() == psql_general_segments(self@, old(args).segments()),
    {
        args.value("--command", &self.command);
        args.value("--dbname", &self.dbname);
        args.value("--file", &self.file);
        args.presence("--list", self.list);
        args.pair("--variable", &self.variable);
        args.presence("--version", self.version);
        args.presence("--no-psqlrc", self.no_psqlrc);
        args.presence("--single-transaction", self.single_transaction);
        args.value("--help", &self.help);
    }

    fn push_input_output(&self, args: &mut ArgumentList)
        requires
            old(args).wf(),
        ensures
            final(args).wf(),
            final(args).segments() == psql_io_segments(self@, old(args).segments()),
    {
        args.presence("--echo-all", self.echo_all);
        args.presence("--echo-errors", self.echo_errors);
        args.presence("--echo-queries", self.echo_queries);
        args.presence("--echo-hidden", self.echo_hidden);
        args.value("--log-file", &self.log_file);
        args.presence("--no-readline", self.no_readline);
        args.value("--output", &self.output);
        args.presence("--quiet", self.quiet);
        args.presence("--single-step", self.single_step);
        args.presence("--single-line", self.single_line);
    }

    fn push_format(&self, args: &mut ArgumentList)
        requires
            old(args).wf(),
        ensures
            final(args).wf(),
            final(args).segments() == psql_format_segments(self@, old(args).segments()),
    {
        args.presence("--no-align", self.no_align);
        args.presence("--csv", self.csv);
        args.value("--field-separator", &self.field_separator);
        args.presence("--html", self.html);
        args.pair("--pset", &self.pset);
        args.value("--record-separator", &self.record_separator);
        args.presence("--tuples-only", self.tuples_only);
        args.value("--table-attr", &self.table_attr);
        args.presence("--expanded", self.expanded);
        args.presence("--field-separator-zero", self.field_separator_zero);
        args.presence("--record-separator-zero", self.record_separator_zero);
    }

    fn push_connection(&self, args: &mut ArgumentList)
        requires
            old(args).wf(),
        ensures
            final(args).wf(),
            final(args).segments() == psql_connection_segments(self@, old(args).segments()),
    {
        args.value("--host", &self.host);
        args.number("--port", self.port);
        args.value("--username", &self.username);
        args.presence("--no-password", self.no_password);
        args.presence("--password", self.password);
    }
}

/// A builder with no field set renders as its program's bare name in quotes.
pub proof fn lemma_unset_renders_bare_name(b: &PsqlBuilder)
    requires
        b@ == PsqlView::unset(),
    ensures
        command_line(built(b)) == seq!['"'] + "psql"@ + seq!['"'],
{
    reveal_strlit("psql");
    let segments = psql_segments(b@);
    assert forall|i: int| 0 <= i < segments.len() implies #[trigger] segments[i].len() == 0 by {}
    lemma_flatten_unset(segments);
    assert(is_plain("psql"@)) by {
        assert forall|i: int| 0 <= i < "psql"@.len() implies is_plain_char(#[trigger] "psql"@[i]) by {}
    }
    lemma_bare_name_rendered(b);
}

/// Building is deterministic: equal builders give the same path and the
/// same arguments, token for token.
pub proof fn lemma_build_deterministic(a: &PsqlBuilder, b: &PsqlBuilder)
    requires
        a@ == b@,
    ensures
        built(a) == built(b),
{
}

} // verus!
