//! pg_controldata displays control information of a PostgreSQL database cluster.

use vstd::prelude::*;
use crate::flags::ArgumentList;
use crate::flags::flatten;
use crate::flags::lemma_flatten_unset;
use crate::flags::presence_flag;
use crate::flags::value_flag;
use crate::render::is_plain;
use crate::render::is_plain_char;
use crate::traits::CommandBuilder;
use crate::traits::built;
use crate::traits::command_line;
use crate::traits::lemma_bare_name_rendered;
use crate::traits::opt_chars;

verus! {

/// Builds a `pg_controldata` invocation.
#[derive(Clone, Debug)]
pub struct PgControlDataBuilder {
    program_dir: Option<String>,
    pgdata: Option<String>,
    version: bool,
    help: bool,
}

/// The fields of a [`PgControlDataBuilder`], unset ones as `None` or `false`.
pub struct PgControlDataView {
    pub program_dir: Option<Seq<char>>,
    pub pgdata: Option<Seq<char>>,
    pub version: bool,
    pub help: bool,
}

impl PgControlDataView {
    /// No field set.
    pub open spec fn unset() -> PgControlDataView {
        PgControlDataView {
            program_dir: None,
            pgdata: None,
            version: false,
            help: false,
        }
    }
}

/// The tokens of each flag, in the declared order.
pub open spec fn pg_controldata_segments(v: PgControlDataView) -> Seq<Seq<Seq<char>>> {
    seq![
        value_flag("--pgdata"@, v.pgdata),
        presence_flag("--version"@, v.version),
        presence_flag("--help"@, v.help),
    ]
}

impl View for PgControlDataBuilder {
    type V = PgControlDataView;

    closed spec fn view(&self) -> PgControlDataView {
        PgControlDataView {
            program_dir: opt_chars(self.program_dir),
            pgdata: opt_chars(self.pgdata),
            version: self.version,
            help: self.help,
        }
    }
}

impl Default for PgControlDataBuilder {
    fn default() -> (r: PgControlDataBuilder)
        ensures
            r@ == PgControlDataView::unset(),
    {
        PgControlDataBuilder::new()
    }
}

impl PgControlDataBuilder {
    /// A builder with no field set.
    pub fn new() -> (r: PgControlDataBuilder)
        ensures
            r@ == PgControlDataView::unset(),
    {
        PgControlDataBuilder {
            program_dir: None,
            pgdata: None,
            version: false,
            help: false,
        }
    }

    /// Location of the program binary.
    pub fn program_dir(self, program_dir: &str) -> (r: PgControlDataBuilder)
        ensures
            r@ == (PgControlDataView { program_dir: Some(program_dir@), ..self@ }),
    {
        PgControlDataBuilder { program_dir: Some(String::from_str(program_dir)), ..self }
    }

    /// The data directory.
    pub fn pgdata(self, pgdata: &str) -> (r: PgControlDataBuilder)
        ensures
            r@ == (PgControlDataView { pgdata: Some(pgdata@), ..self@ }),
    {
        PgControlDataBuilder { pgdata: Some(String::from_str(pgdata)), ..self }
    }

    /// Output version information, then exit.
    pub fn version(self) -> (r: PgControlDataBuilder)
        ensures
            r@ == (PgControlDataView { version: true, ..self@ }),
    {
        PgControlDataBuilder { version: true, ..self }
    }

    /// Show help, then exit.
    pub fn help(self) -> (r: PgControlDataBuilder)
        ensures
            r@ == (PgControlDataView { help: true, ..self@ }),
    {
        PgControlDataBuilder { help: true, ..self }
    }
}

impl CommandBuilder for PgControlDataBuilder {
    open spec fn program_name(&self) -> Seq<char> {
        "pg_controldata"@
    }

    open spec fn program_dir_view(&self) -> Option<Seq<char>> {
        self@.program_dir
    }

    open spec fn args_view(&self) -> Seq<Seq<char>> {
        flatten(pg_controldata_segments(self@))
    }

    fn get_program(&self) -> (r: &'static str) {
        "pg_controldata"
    }

    fn get_program_dir(&self) -> (r: &Option<String>) {
        &self.program_dir
    }

    fn get_args(&self) -> (r: Vec<String>) {
        let mut args = ArgumentList::new();
        args.value("--pgdata", &self.pgdata);
        args.presence("--version", self.version);
        args.presence("--help", self.help);
        assert(args.segments() =~= pg_controldata_segments(self@));
        args.into_vec()
    }
}

/// A builder with no field set renders as its program's bare name in quotes.
pub proof fn lemma_unset_renders_bare_name(b: &PgControlDataBuilder)
    requires
        b@ == PgControlDataView::unset(),
    ensures
        command_line(built(b)) == seq!['"'] + "pg_controldata"@ + seq!['"'],
{
    reveal_strlit("pg_controldata");
    let segments = pg_controldata_segments(b@);
    assert forall|i: int| 0 <= i < segments.len() implies #[trigger] segments[i].len() == 0 by {}
    lemma_flatten_unset(segments);
    assert(is_plain("pg_controldata"@)) by {
        assert forall|i: int| 0 <= i < "pg_controldata"@.len() implies is_plain_char(#[trigger] "pg_controldata"@[i]) by {}
    }
    lemma_bare_name_rendered(b);
}

/// Building is deterministic: equal builders give the same path and the
/// same arguments, token for token.
pub proof fn lemma_build_deterministic(a: &PgControlDataBuilder, b: &PgControlDataBuilder)
    requires
        a@ == b@,
    ensures
        built(a) == built(b),
{
}

} // verus!
