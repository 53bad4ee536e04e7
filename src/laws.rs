//! Properties of the configuration-to-environment resolution, stated over the
//! models that the builder's and the environment's contracts use.
use vstd::prelude::*;

use crate::builder::{env_of, initial, BuilderView};
use crate::environment::inside;
use crate::sandbox_path::{escapes, joined, lemma_empty_stays};

verus! {

/// The arguments of the environment are those configured, in order, however
/// they were split among appends: appending `xs` and then `ys` to a fresh
/// configuration yields exactly `xs + ys`.
pub proof fn lemma_arguments_in_order(root: Seq<char>, xs: Seq<Seq<char>>, ys: Seq<Seq<char>>)
    ensures
        env_of(BuilderView { args: initial().args + xs + ys, ..initial() }, root).arguments
            == xs + ys,
{
    assert(initial().args + xs + ys =~= xs + ys);
}

/// Without an override the working directory is the sandbox root itself.
pub proof fn lemma_default_dir_is_root(root: Seq<char>)
    ensures
        env_of(initial(), root).current_dir == root,
{
}

/// With an override `rel` that stays inside the sandbox, the working
/// directory is `rel` joined onto the sandbox root, and lies inside the sandbox.
pub proof fn lemma_override_dir_is_joined(b: BuilderView, root: Seq<char>, rel: Seq<char>)
    requires
        b.current_dir == Some(rel),
        !escapes(rel),
    ensures
        env_of(b, root).current_dir == joined(root, rel),
        inside(root, env_of(b, root).current_dir),
{
}

/// Every configuration that finalization accepts puts the working directory
/// inside the sandbox.
pub proof fn lemma_dir_inside_sandbox(b: BuilderView, root: Seq<char>)
    requires
        !(b.current_dir is Some && escapes(b.current_dir->0)),
    ensures
        inside(root, env_of(b, root).current_dir),
{
    lemma_empty_stays();
    let wit = match b.current_dir {
        Some(d) => d,
        None => Seq::<char>::empty(),
    };
    assert(env_of(b, root).current_dir == joined(root, wit));
}

/// Color is enabled on the standard stream exactly when both the terminal
/// flag and the color flag are set.
pub proof fn lemma_color_needs_both(b: BuilderView, root: Seq<char>)
    ensures
        env_of(b, root).out.colors <==> (b.out_is_term && b.use_color),
        !b.out_is_term ==> !env_of(b, root).out.colors,
        !b.use_color ==> !env_of(b, root).out.colors,
{
}

/// Error-stream styling follows the error-style flag alone: changing the
/// terminal and color flags leaves the error stream as it is, and changing
/// the error-style flag leaves the standard stream as it is.
pub proof fn lemma_err_style_independent(
    b: BuilderView,
    root: Seq<char>,
    out_is_term: bool,
    use_color: bool,
    err_style: bool,
)
    ensures
        env_of(b, root).err.colors == b.err_style,
        !env_of(b, root).err.terminal,
        env_of(BuilderView { out_is_term, use_color, ..b }, root).err == env_of(b, root).err,
        env_of(BuilderView { err_style, ..b }, root).out == env_of(b, root).out,
{
}

} // verus!
