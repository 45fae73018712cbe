//! pg_isready issues a connection check to a PostgreSQL database.

use vstd::prelude::*;
use crate::flags::flatten;
use crate::flags::opt_decimal;
use crate::flags::presence_flag;
use crate::flags::value_flag;
use crate::flags::ArgumentList;
use crate::traits::opt_chars;
use crate::traits::CommandBuilder;

verus! {

/// Builds a `pg_isready` invocation.
#[derive(Clone, Debug)]
pub struct PgIsReadyBuilder {
    program_dir: Option<String>,
    dbname: Option<String>,
    quiet: bool,
    version: bool,
    help: bool,
    host: Option<String>,
    port: Option<u16>,
    timeout: Option<u16>,
    username: Option<String>,
}

/// The fields of a [`PgIsReadyBuilder`], unset ones as `None` or `false`.
pub struct PgIsReadyView {
    pub program_dir: Option<Seq<char>>,
    pub dbname: Option<Seq<char>>,
    pub quiet: bool,
    pub version: bool,
    pub help: bool,
    pub host: Option<Seq<char>>,
    pub port: Option<u16>,
    pub timeout: Option<u16>,
    pub username: Option<Seq<char>>,
}

impl PgIsReadyView {
    /// No field set.
    pub open spec fn unset() -> PgIsReadyView {
        PgIsReadyView {
            program_dir: None,
            dbname: None,
            quiet: false,
            version: false,
            help: false,
            host: None,
            port: None,
            timeout: None,
            username: None,
        }
    }
}

/// The tokens of each flag, in the declared order.
pub open spec fn pg_isready_segments(v: PgIsReadyView) -> Seq<Seq<Seq<char>>> {
    seq![
        value_flag("--dbname"@, v.dbname),
        presence_flag("--quiet"@, v.quiet),
        presence_flag("--version"@, v.version),
        presence_flag("--help"@, v.help),
        value_flag("--host"@, v.host),
        value_flag("--port"@, opt_decimal(v.port)),
        value_flag("--timeout"@, opt_decimal(v.timeout)),
        value_flag("--username"@, v.username),
    ]
}

impl View for PgIsReadyBuilder {
    type V = PgIsReadyView;

    closed spec fn view(&self) -> PgIsReadyView {
        PgIsReadyView {
            program_dir: opt_chars(self.program_dir),
            dbname: opt_chars(self.dbname),
            quiet: self.quiet,
            version: self.version,
            help: self.help,
            host: opt_chars(self.host),
            port: self.port,
            timeout: self.timeout,
            username: opt_chars(self.username),
        }
    }
}

impl Default for PgIsReadyBuilder {
    fn default() -> (r: PgIsReadyBuilder)
        ensures
            r@ == PgIsReadyView::unset(),
    {
        PgIsReadyBuilder::new()
    }
}

impl PgIsReadyBuilder {
    /// A builder with no field set.
    pub fn new() -> (r: PgIsReadyBuilder)
        ensures
            r@ == PgIsReadyView::unset(),
    {
        PgIsReadyBuilder {
            program_dir: None,
            dbname: None,
            quiet: false,
            version: false,
            help: false,
            host: None,
            port: None,
            timeout: None,
            username: None,
        }
    }

    /// Location of the program binary.
    pub fn program_dir(self, path: &str) -> (r: PgIsReadyBuilder)
        ensures
            r@ == (PgIsReadyView { program_dir: Some(path@), ..self@ }),
    {
        PgIsReadyBuilder { program_dir: Some(String::from_str(path)), ..self }
    }

    /// The database name.
    pub fn dbname(self, dbname: &str) -> (r: PgIsReadyBuilder)
        ensures
            r@ == (PgIsReadyView { dbname: Some(dbname@), ..self@ }),
    {
        PgIsReadyBuilder { dbname: Some(String::from_str(dbname)), ..self }
    }

    /// Run quietly.
    pub fn quiet(self) -> (r: PgIsReadyBuilder)
        ensures
            r@ == (PgIsReadyView { quiet: true, ..self@ }),
    {
        PgIsReadyBuilder { quiet: true, ..self }
    }

    /// Output version information, then exit.
    pub fn version(self) -> (r: PgIsReadyBuilder)
        ensures
            r@ == (PgIsReadyView { version: true, ..self@ }),
    {
        PgIsReadyBuilder { version: true, ..self }
    }

    /// Show help, then exit.
    pub fn help(self) -> (r: PgIsReadyBuilder)
        ensures
            r@ == (PgIsReadyView { help: true, ..self@ }),
    {
        PgIsReadyBuilder { help: true, ..self }
    }

    /// The database server host or socket directory.
    pub fn host(self, host: &str) -> (r: PgIsReadyBuilder)
        ensures
            r@ == (PgIsReadyView { host: Some(host@), ..self@ }),
    {
        PgIsReadyBuilder { host: Some(String::from_str(host)), ..self }
    }

    /// The database server port.
    pub fn port(self, port: u16) -> (r: PgIsReadyBuilder)
        ensures
            r@ == (PgIsReadyView { port: Some(port), ..self@ }),
    {
        PgIsReadyBuilder { port: Some(port), ..self }
    }

    /// Seconds to wait when attempting a connection; 0 disables the limit.
    pub fn timeout(self, timeout: u16) -> (r: PgIsReadyBuilder)
        ensures
            r@ == (PgIsReadyView { timeout: Some(timeout), ..self@ }),
    {
        PgIsReadyBuilder { timeout: Some(timeout), ..self }
    }

    /// The user name to connect as.
    pub fn username(self, username: &str) -> (r: PgIsReadyBuilder)
        ensures
            r@ == (PgIsReadyView { username: Some(username@), ..self@ }),
    {
        PgIsReadyBuilder { username: Some(String::from_str(username)), ..self }
    }
}

impl CommandBuilder for PgIsReadyBuilder {
    open spec fn program_name(&self) -> Seq<char> {
        "pg_isready"@
    }

    open spec fn program_dir_view(&self) -> Option<Seq<char>> {
        self@.program_dir
    }

    open spec fn args_view(&self) -> Seq<Seq<char>> {
        flatten(pg_isready_segments(self@))
    }

    fn get_program(&self) -> (r: &'static str) {
        "pg_isready"
    }

    fn get_program_dir(&self) -> (r: &Option<String>) {
        &self.program_dir
    }

    fn get_args(&self) -> (r: Vec<String>) {
        let mut args = ArgumentList::new();
        args.value("--dbname", &self.dbname);
        args.presence("--quiet", self.quiet);
        args.presence("--version", self.version);
        args.presence("--help", self.help);
        args.value("--host", &self.host);
        args.number("--port", self.port);
        args.number("--timeout", self.timeout);
        args.value("--username", &self.username);
        assert(args.segments() =~= pg_isready_segments(self@));
        args.into_vec()
    }
}

} // verus!
