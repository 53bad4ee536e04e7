//! The configuration accumulator and the finalization step that assembles a
//! [`TestEnv`].
use vstd::prelude::*;

use crate::capture::{Capture, OutputStream, StreamView};
use crate::environment::{texts, Env, EnvView, TestEnv};
use crate::external::sandbox_root_text;
use crate::sandbox_path::{
    escapes, joined, lemma_empty_stays, path_escapes, resolve_working_dir, resolved_dir,
};

verus! {

/// Why finalization produced no environment.
#[derive(Debug, Clone, Copy, PartialEq, Eq, Structural)]
pub enum BuildError {
    /// The working-directory override is absolute or climbs above the sandbox root.
    EscapesSandbox,
    /// No fresh sandbox directory could be created.
    SandboxUnavailable,
    /// The sandbox directory's path is not valid Unicode.
    RootNotUnicode,
}

/// What a builder has collected.
pub struct BuilderView {
    pub args: Seq<Seq<char>>,
    pub current_dir: Option<Seq<char>>,
    pub out_is_term: bool,
    pub use_color: bool,
    pub err_style: bool,
    pub tempdir: Option<tempfile::TempDir>,
}

/// A fluent configuration value: each call takes the builder and returns it
/// with one field changed; `build` consumes it.
pub struct TestEnvBuilder {
    args: Vec<String>,
    current_dir: Option<String>,
    out_is_term: bool,
    tempdir: Option<tempfile::TempDir>,
    use_color: bool,
    err_style: bool,
}

impl View for TestEnvBuilder {
    type V = BuilderView;

    closed spec fn view(&self) -> BuilderView {
        BuilderView {
            args: texts(self.args@),
            current_dir: match self.current_dir {
                Some(d) => Some(d@),
                None => None,
            },
            out_is_term: self.out_is_term,
            use_color: self.use_color,
            err_style: self.err_style,
            tempdir: self.tempdir,
        }
    }
}

/// The standard stream that a configuration asks for, before anything is written.
pub open spec fn out_stream_of(b: BuilderView) -> StreamView {
    StreamView {
        captured: Seq::<u8>::empty(),
        colors: b.use_color && b.out_is_term,
        terminal: b.out_is_term,
    }
}

/// The error stream that a configuration asks for, before anything is written.
pub open spec fn err_stream_of(b: BuilderView) -> StreamView {
    StreamView { captured: Seq::<u8>::empty(), colors: b.err_style, terminal: false }
}

/// The environment that a configuration yields in a sandbox whose root reads `root`.
pub open spec fn env_of(b: BuilderView, root: Seq<char>) -> EnvView {
    EnvView {
        current_dir: resolved_dir(root, b.current_dir),
        arguments: b.args,
        out: out_stream_of(b),
        err: err_stream_of(b),
    }
}

/// The configuration of a fresh builder: no arguments, no override, no
/// supplied sandbox, every flag false.
pub open spec fn initial() -> BuilderView {
    BuilderView {
        args: Seq::empty(),
        current_dir: None,
        out_is_term: false,
        use_color: false,
        err_style: false,
        tempdir: None,
    }
}

impl TestEnvBuilder {
    /// A builder holding the default configuration.
    pub fn new() -> (r: TestEnvBuilder)
        ensures
            r@ == initial(),
    {
        let r = TestEnvBuilder {
            args: Vec::new(),
            current_dir: None,
            out_is_term: false,
            tempdir: None,
            use_color: false,
            err_style: false,
        };
        assert(r@.args =~= Seq::empty());
        r
    }

    /// The standard stream behaves as if attached to a terminal.
    pub fn out_is_term(self) -> (r: TestEnvBuilder)
        ensures
            r@ == (BuilderView { out_is_term: true, ..self@ }),
    {
        TestEnvBuilder { out_is_term: true, ..self }
    }

    /// Styling on the error stream.
    pub fn err_style(self, err_style: bool) -> (r: TestEnvBuilder)
        ensures
            r@ == (BuilderView { err_style, ..self@ }),
    {
        TestEnvBuilder { err_style, ..self }
    }

    /// Whether color is requested on the standard stream.
    pub fn use_color(self, use_color: bool) -> (r: TestEnvBuilder)
        ensures
            r@ == (BuilderView { use_color, ..self@ }),
    {
        TestEnvBuilder { use_color, ..self }
    }

    /// Appends one argument.
    pub fn arg(self, arg: &str) -> (r: TestEnvBuilder)
        ensures
            r@ == (BuilderView { args: self@.args.push(arg@), ..self@ }),
    {
        let mut r = self;
        r.args.push(arg.to_owned());
        proof {
            assert(r@.args =~= self@.args.push(arg@));
        }
        r
    }

    /// The working directory, relative to the sandbox root.
    pub fn current_dir(self, path: &str) -> (r: TestEnvBuilder)
        ensures
            r@ == (BuilderView { current_dir: Some(path@), ..self@ }),
    {
        TestEnvBuilder { current_dir: Some(path.to_owned()), ..self }
    }

    /// Appends each of `args`, in order.
    pub fn arg_slice(self, args: &[&str]) -> (r: TestEnvBuilder)
        ensures
            r@ == (BuilderView { args: self@.args + args@.map_values(|s: &str| s@), ..self@ }),
    {
        let mut r = self;
        let mut i: usize = 0;
        while i < args.len()
            invariant
                i <= args@.len(),
                r@ == (BuilderView {
                    args: self@.args + args@.take(i as int).map_values(|s: &str| s@),
                    ..self@
                }),
            decreases args@.len() - i,
        {
            let ghost prev = r@.args;
            r.args.push(args[i].to_owned());
            proof {
                assert(args@.take(i + 1) =~= args@.take(i as int).push(args@[i as int]));
                assert(r@.args =~= prev.push(args@[i as int]@));
                assert(r@.args =~= self@.args + args@.take(i + 1).map_values(|s: &str| s@));
            }
            i = i + 1;
        }
        proof {
            assert(args@.take(args@.len() as int) =~= args@);
        }
        r
    }

    /// A sandbox directory to use instead of a fresh one.
    pub fn tempdir(self, tempdir: tempfile::TempDir) -> (r: TestEnvBuilder)
        ensures
            r@ == (BuilderView { tempdir: Some(tempdir), ..self@ }),
    {
        TestEnvBuilder { tempdir: Some(tempdir), ..self }
    }

    /// Assembles the environment: two empty capture sinks, the supplied
    /// sandbox or a fresh one, the working directory rooted in it, and the two
    /// streams wired from the flags.
    pub fn build(self) -> (r: Result<TestEnv, BuildError>)
        ensures
            r matches Err(BuildError::EscapesSandbox) <==> (self@.current_dir is Some && escapes(
                self@.current_dir->0,
            )),
            r matches Err(BuildError::SandboxUnavailable) ==> self@.tempdir is None,
            r is Ok ==> ({
                let t = r->Ok_0;
                &&& t.wf()
                &&& t@.env == env_of(self@, t@.root)
                &&& self@.tempdir is Some ==> t@.sandbox == self@.tempdir->0
            }),
    {
        let ghost model = self@;
        let TestEnvBuilder { args, current_dir, out_is_term, tempdir, use_color, err_style } =
            self;
        let rel: Option<&str> = match &current_dir {
            Some(d) => Some(d.as_str()),
            None => None,
        };
        if let Some(d) = rel {
            if path_escapes(d) {
                return Err(BuildError::EscapesSandbox);
            }
        }
        let err = Capture::new();
        let out = Capture::new();
        let tempdir = match tempdir {
            Some(t) => t,
            None => match tempfile::tempdir() {
                Ok(t) => t,
                Err(_) => {
                    return Err(BuildError::SandboxUnavailable);
                },
            },
        };
        let root = match sandbox_root_text(&tempdir) {
            Some(s) => s,
            None => {
                return Err(BuildError::RootNotUnicode);
            },
        };
        let working_dir = match resolve_working_dir(root.as_str(), rel) {
            Some(w) => w,
            None => {
                return Err(BuildError::EscapesSandbox);
            },
        };
        let out_stream = OutputStream::new(out, use_color && out_is_term, out_is_term);
        let err_stream = OutputStream::new(err, err_style, false);
        let env = Env::new(working_dir, args, out_stream, err_stream);
        let r = TestEnv::new(tempdir, root, env);
        proof {
            let wit = match model.current_dir {
                Some(d) => d,
                None => Seq::<char>::empty(),
            };
            lemma_empty_stays();
            assert(!escapes(wit));
            assert(r@.env.current_dir == joined(r@.root, wit));
        }
        Ok(r)
    }
}

} // verus!
