//! The capability every tool's builder has, and the invocation it builds.

use vstd::prelude::*;
use crate::render::quote;
use crate::render::is_plain;
use crate::render::lemma_quoted_plain;
use crate::render::quoted;

verus! {

/// The characters of an optional string.
pub open spec fn opt_chars(o: Option<String>) -> Option<Seq<char>> {
    match o {
        Some(s) => Some(s@),
        None => None,
    }
}

/// The characters of each string, in order.
pub open spec fn strings_view(v: Seq<String>) -> Seq<Seq<char>> {
    v.map_values(|s: String| s@)
}

/// The path that joining `name` onto `dir` gives where `/` separates components.
pub open spec fn joined_path(dir: Seq<char>, name: Seq<char>) -> Seq<char> {
    if name.len() > 0 && name[0] == '/' {
        name
    } else if dir.len() == 0 || dir.last() == '/' {
        dir + name
    } else {
        dir + seq!['/'] + name
    }
}

/// Where the program is taken from: joined onto its directory when one is
/// given, else its bare name, left to the search path.
pub open spec fn program_file_of(dir: Option<Seq<char>>, name: Seq<char>) -> Seq<char> {
    match dir {
        Some(d) => joined_path(d, name),
        None => name,
    }
}

/// Relies on `std::path::Path::join` on Unix-like targets: an absolute `name`
/// replaces `dir`; otherwise `name` follows `dir`, after a `/` where `dir` is
/// not empty and does not end in one. Both are UTF-8, so the result converts
/// back without loss.
#[verifier::external_body]
fn join_path(dir: &str, name: &str) -> (r: String)
    ensures
        r@ == joined_path(dir@, name@),
{
    std::path::Path::new(dir).join(name).to_string_lossy().into_owned()
}

/// A resolved invocation: the program's path, its arguments in order, and
/// the directory it runs in when that is not the caller's.
pub struct Invocation {
    program_file: String,
    args: Vec<String>,
    current_dir: Option<String>,
}

/// An invocation as the contracts see it.
pub struct InvocationView {
    pub program_file: Seq<char>,
    pub args: Seq<Seq<char>>,
    pub current_dir: Option<Seq<char>>,
}

impl View for Invocation {
    type V = InvocationView;

    closed spec fn view(&self) -> InvocationView {
        InvocationView {
            program_file: self.program_file@,
            args: strings_view(self.args@),
            current_dir: opt_chars(self.current_dir),
        }
    }
}

/// The quoted arguments, each after a space.
pub open spec fn quoted_args(args: Seq<Seq<char>>) -> Seq<char>
    decreases args.len(),
{
    if args.len() == 0 {
        seq![]
    } else {
        quoted_args(args.drop_last()) + seq![' '] + quoted(args.last())
    }
}

/// `cd "<dir>" && ` where a working directory is set, else nothing.
pub open spec fn cd_prefix(dir: Option<Seq<char>>) -> Seq<char> {
    match dir {
        Some(d) => seq!['c', 'd', ' '] + quoted(d) + seq![' ', '&', '&', ' '],
        None => seq![],
    }
}

/// The diagnostic form of an invocation.
pub open spec fn command_line(v: InvocationView) -> Seq<char> {
    cd_prefix(v.current_dir) + quoted(v.program_file) + quoted_args(v.args)
}

impl Invocation {
    /// An invocation of `program` with no arguments, in the caller's directory.
    pub fn new(program: &str) -> (r: Invocation)
        ensures
            r@.program_file == program@,
            r@.args == Seq::<Seq<char>>::empty(),
            r@.current_dir == None::<Seq<char>>,
    {
        let r = Invocation { program_file: String::from_str(program), args: Vec::new(), current_dir: None };
        assert(r@.args =~= Seq::<Seq<char>>::empty());
        r
    }

    /// Adds one argument after the others.
    pub fn arg(&mut self, arg: &str)
        ensures
            final(self)@.program_file == old(self)@.program_file,
            final(self)@.args == old(self)@.args.push(arg@),
            final(self)@.current_dir == old(self)@.current_dir,
    {
        self.args.push(String::from_str(arg));
        assert(strings_view(self.args@) =~= old(self)@.args.push(arg@));
    }

    /// Sets the directory the program runs in.
    pub fn current_dir(&mut self, dir: &str)
        ensures
            final(self)@.program_file == old(self)@.program_file,
            final(self)@.args == old(self)@.args,
            final(self)@.current_dir == Some(dir@),
    {
        self.current_dir = Some(String::from_str(dir));
    }

    /// The path the program is started from.
    pub fn get_program_file(&self) -> (r: &String)
        ensures
            r@ == self@.program_file,
    {
        &self.program_file
    }

    /// The arguments, in order.
    pub fn get_args(&self) -> (r: &Vec<String>)
        ensures
            strings_view(r@) == self@.args,
    {
        &self.args
    }

    /// The directory the program runs in, where one is set.
    pub fn get_current_dir(&self) -> (r: &Option<String>)
        ensures
            opt_chars(*r) == self@.current_dir,
    {
        &self.current_dir
    }
}

/// Renders a command line for diagnostics and tests.
pub trait CommandToString {
    fn to_command_string(&self) -> String;
}

impl CommandToString for Invocation {
    /// The program's path and each argument, quoted and separated by spaces,
    /// after `cd "<dir>" && ` where a working directory is set.
    fn to_command_string(&self) -> (r: String)
        ensures
            r@ == command_line(self@),
    {
        let mut r = String::new();
        match &self.current_dir {
            Some(dir) => {
                r.append("cd ");
                let q = quote(dir.as_str());
                r.append(q.as_str());
                r.append(" && ");
            },
            None => {},
        }
        proof {
            reveal_strlit("cd ");
            reveal_strlit(" && ");
        }
        assert(r@ =~= cd_prefix(self@.current_dir));
        let q = quote(self.program_file.as_str());
        r.append(q.as_str());
        let ghost args = self@.args;
        assert(args.subrange(0, 0) =~= Seq::<Seq<char>>::empty());
        let mut i: usize = 0;
        while i < self.args.len()
            invariant
                i <= self.args.len(),
                args == strings_view(self.args@),
                r@ == cd_prefix(self@.current_dir) + quoted(self@.program_file) + quoted_args(args.subrange(0, i as int)),
            decreases self.args.len() - i,
        {
            r.append(" ");
            let q = quote(self.args[i].as_str());
            r.append(q.as_str());
            proof {
                reveal_strlit(" ");
                assert(args.subrange(0, i as int + 1).drop_last() =~= args.subrange(0, i as int));
            }
            i = i + 1;
            assert(r@ =~= cd_prefix(self@.current_dir) + quoted(self@.program_file) + quoted_args(args.subrange(0, i as int)));
        }
        assert(args.subrange(0, i as int) =~= args);
        r
    }
}

/// The invocation a builder gives: its resolved path and its arguments, run
/// in the caller's directory.
pub open spec fn built<B: CommandBuilder>(b: &B) -> InvocationView {
    InvocationView {
        program_file: program_file_of(b.program_dir_view(), b.program_name()),
        args: b.args_view(),
        current_dir: None,
    }
}

/// A builder with no directory and no arguments renders as its program's
/// name alone, in quotes, where that name needs no escape.
pub proof fn lemma_bare_name_rendered<B: CommandBuilder>(b: &B)
    requires
        b.program_dir_view() == None::<Seq<char>>,
        b.args_view() == Seq::<Seq<char>>::empty(),
        is_plain(b.program_name()),
    ensures
        command_line(built(b)) == seq!['"'] + b.program_name() + seq!['"'],
{
    lemma_quoted_plain(b.program_name());
    assert(command_line(built(b)) =~= seq!['"'] + b.program_name() + seq!['"']);
}

/// With a program directory, the program is taken from the directory joined
/// with its name, and the diagnostic form starts with that path as one quoted
/// token, before the arguments.
pub proof fn lemma_program_dir_resolved<B: CommandBuilder>(b: &B, dir: Seq<char>)
    requires
        b.program_dir_view() == Some(dir),
    ensures
        built(b).program_file == joined_path(dir, b.program_name()),
        command_line(built(b)) == quoted(joined_path(dir, b.program_name())) + quoted_args(b.args_view()),
{
    assert(command_line(built(b)) =~= quoted(joined_path(dir, b.program_name())) + quoted_args(b.args_view()));
}

/// What every tool's builder offers: the program's fixed name, an optional
/// directory to take it from, and the arguments its set fields give.
pub trait CommandBuilder: Sized {
    /// The program's name, in the contracts; each tool's builder states its own.
    open spec fn program_name(&self) -> Seq<char> {
        Seq::empty()
    }

    /// The directory the program is taken from, in the contracts.
    open spec fn program_dir_view(&self) -> Option<Seq<char>> {
        None
    }

    /// The argument tokens, in the contracts.
    open spec fn args_view(&self) -> Seq<Seq<char>> {
        Seq::empty()
    }

    /// The program's name.
    fn get_program(&self) -> (r: &'static str)
        ensures
            r@ == self.program_name(),
    ;

    /// The directory the program is taken from, where one is given.
    fn get_program_dir(&self) -> (r: &Option<String>)
        ensures
            opt_chars(*r) == self.program_dir_view(),
    ;

    /// The arguments, in the tool's declared order.
    fn get_args(&self) -> (r: Vec<String>)
        ensures
            strings_view(r@) == self.args_view(),
    ;

    /// The fully qualified path of the program.
    fn get_program_file(&self) -> (r: String)
        ensures
            r@ == program_file_of(self.program_dir_view(), self.program_name()),
    {
        let program_name = self.get_program();
        match self.get_program_dir() {
            Some(program_dir) => join_path(program_dir.as_str(), program_name),
            None => String::from_str(program_name),
        }
    }

    /// The invocation: the resolved path and the arguments.
    fn build(self) -> (r: Invocation)
        ensures
            r@.program_file == program_file_of(self.program_dir_view(), self.program_name()),
            r@.args == self.args_view(),
            r@.current_dir == None::<Seq<char>>,
    {
        let program_file = self.get_program_file();
        let args = self.get_args();
        Invocation { program_file, args, current_dir: None }
    }
}

} // verus!
