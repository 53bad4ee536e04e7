//! The assembled environment: a sandbox directory, the resolved working
//! directory and arguments, and the two wired output streams.
use vstd::prelude::*;

use crate::capture::{OutputStream, StreamView};
use crate::sandbox_path::{escapes, joined};

verus! {

/// The text of each argument, in order.
pub open spec fn texts(v: Seq<String>) -> Seq<Seq<char>> {
    v.map_values(|s: String| s@)
}

/// What an execution context holds.
pub struct EnvView {
    pub current_dir: Seq<char>,
    pub arguments: Seq<Seq<char>>,
    pub out: StreamView,
    pub err: StreamView,
}

/// The context handed to the program under test: working directory,
/// arguments, standard stream and error stream.
pub struct Env {
    current_dir: String,
    arguments: Vec<String>,
    out: OutputStream,
    err: OutputStream,
}

impl View for Env {
    type V = EnvView;

    closed spec fn view(&self) -> EnvView {
        EnvView {
            current_dir: self.current_dir@,
            arguments: texts(self.arguments@),
            out: self.out@,
            err: self.err@,
        }
    }
}

impl Env {
    /// Bundles the four parts.
    pub fn new(
        current_dir: String,
        arguments: Vec<String>,
        out: OutputStream,
        err: OutputStream,
    ) -> (r: Env)
        ensures
            r@ == (EnvView {
                current_dir: current_dir@,
                arguments: texts(arguments@),
                out: out@,
                err: err@,
            }),
    {
        Env { current_dir, arguments, out, err }
    }

    /// The working directory.
    pub fn current_dir(&self) -> (r: &str)
        ensures
            r@ == self@.current_dir,
    {
        self.current_dir.as_str()
    }

    /// The arguments, in order.
    pub fn arguments(&self) -> (r: &[String])
        ensures
            texts(r@) == self@.arguments,
    {
        self.arguments.as_slice()
    }

    /// The standard stream.
    pub fn out(&self) -> (r: &OutputStream)
        ensures
            r@ == self@.out,
    {
        &self.out
    }

    /// The error stream.
    pub fn err(&self) -> (r: &OutputStream)
        ensures
            r@ == self@.err,
    {
        &self.err
    }

    /// Writes `data` to the standard stream; nothing else changes.
    pub fn write_out(&mut self, data: &[u8])
        ensures
            final(self)@ == (EnvView {
                out: StreamView { captured: old(self)@.out.captured + data@, ..old(self)@.out },
                ..old(self)@
            }),
    {
        self.out.write(data);
    }

    /// Writes `data` to the error stream; nothing else changes.
    pub fn write_err(&mut self, data: &[u8])
        ensures
            final(self)@ == (EnvView {
                err: StreamView { captured: old(self)@.err.captured + data@, ..old(self)@.err },
                ..old(self)@
            }),
    {
        self.err.write(data);
    }
}

/// Whether `dir` lies at or below `root`: it is `root` with a path joined onto
/// it that does not leave it.
pub open spec fn inside(root: Seq<char>, dir: Seq<char>) -> bool {
    exists|rel: Seq<char>| !escapes(rel) && dir == #[trigger] joined(root, rel)
}

/// What an assembled environment holds.
pub struct TestEnvView {
    pub sandbox: tempfile::TempDir,
    pub root: Seq<char>,
    pub env: EnvView,
}

/// An execution context rooted in a sandbox directory that it owns; the
/// directory is removed when the value is dropped.
pub struct TestEnv {
    tempdir: tempfile::TempDir,
    root: String,
    env: Env,
}

impl View for TestEnv {
    type V = TestEnvView;

    closed spec fn view(&self) -> TestEnvView {
        TestEnvView { sandbox: self.tempdir, root: self.root@, env: self.env@ }
    }
}

impl TestEnv {
    /// The working directory lies inside the sandbox.
    pub open spec fn wf(&self) -> bool {
        inside(self@.root, self@.env.current_dir)
    }

    pub(crate) fn new(tempdir: tempfile::TempDir, root: String, env: Env) -> (r: TestEnv)
        ensures
            r@ == (TestEnvView { sandbox: tempdir, root: root@, env: env@ }),
    {
        TestEnv { tempdir, root, env }
    }

    /// The sandbox directory handle.
    pub fn tempdir(&self) -> (r: &tempfile::TempDir)
        ensures
            *r == self@.sandbox,
    {
        &self.tempdir
    }

    /// The sandbox directory's path.
    pub fn root(&self) -> (r: &str)
        ensures
            r@ == self@.root,
    {
        self.root.as_str()
    }

    /// The execution context.
    pub fn env(&self) -> (r: &Env)
        ensures
            r@ == self@.env,
    {
        &self.env
    }

    /// The bytes written to the standard stream so far.
    pub fn captured_out(&self) -> (r: &[u8])
        ensures
            r@ == self@.env.out.captured,
    {
        self.env.out.captured()
    }

    /// The bytes written to the error stream so far.
    pub fn captured_err(&self) -> (r: &[u8])
        ensures
            r@ == self@.env.err.captured,
    {
        self.env.err.captured()
    }

    /// Writes `data` to the standard stream; nothing else changes.
    pub fn write_out(&mut self, data: &[u8])
        ensures
            final(self)@ == (TestEnvView {
                env: EnvView {
                    out: StreamView {
                        captured: old(self)@.env.out.captured + data@,
                        ..old(self)@.env.out
                    },
                    ..old(self)@.env
                },
                ..old(self)@
            }),
    {
        self.env.write_out(data);
    }

    /// Writes `data` to the error stream; nothing else changes.
    pub fn write_err(&mut self, data: &[u8])
        ensures
            final(self)@ == (TestEnvView {
                env: EnvView {
                    err: StreamView {
                        captured: old(self)@.env.err.captured + data@,
                        ..old(self)@.env.err
                    },
                    ..old(self)@.env
                },
                ..old(self)@
            }),
    {
        self.env.write_err(data);
    }
}

} // verus!
