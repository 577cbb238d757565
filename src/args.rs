use vstd::prelude::*;
use vstd::string::*;
use crate::plan::{Invocation, InvocationView, Stage};

verus! {

/// `flag` where confirmation prompts are suppressed, else nothing.
pub open spec fn confirm(yes: bool, flag: Seq<char>) -> Seq<Seq<char>> {
    if yes {
        seq![flag]
    } else {
        seq![]
    }
}

/// A run whose only accepted exit code is zero.
pub open spec fn run(
    program: Seq<char>,
    args: Seq<Seq<char>>,
    env: Seq<(Seq<char>, Seq<char>)>,
    stage: Stage,
) -> InvocationView {
    InvocationView { program, args, env, ok_codes: seq![0i32], stage }
}

/// An owned copy of a string slice.
pub fn lit(s: &str) -> (r: String)
    ensures
        r@ == s@,
{
    String::from_str(s)
}

/// A list of one argument.
pub fn one_arg(s: &str) -> (r: Vec<String>)
    ensures
        r.deep_view() == seq![s@],
{
    let r = vec![lit(s)];
    assert(r.deep_view() =~= seq![s@]);
    r
}

/// Appends one argument.
pub fn push_arg(v: &mut Vec<String>, s: String)
    ensures
        final(v).deep_view() == old(v).deep_view().push(s@),
{
    let ghost sv = s@;
    v.push(s);
    assert(v.deep_view() =~= old(v).deep_view().push(sv));
}

/// Appends a list of arguments.
pub fn push_args(v: &mut Vec<String>, w: Vec<String>)
    ensures
        final(v).deep_view() == old(v).deep_view() + w.deep_view(),
{
    let mut w = w;
    let ghost wv = w.deep_view();
    v.append(&mut w);
    assert(v.deep_view() =~= old(v).deep_view() + wv);
}

/// Appends `flag` where confirmation prompts are suppressed.
pub fn push_confirm(v: &mut Vec<String>, yes: bool, flag: &str)
    ensures
        final(v).deep_view() == old(v).deep_view() + confirm(yes, flag@),
{
    if yes {
        push_arg(v, lit(flag));
        assert(old(v).deep_view().push(flag@) =~= old(v).deep_view() + confirm(yes, flag@));
    } else {
        assert(old(v).deep_view() =~= old(v).deep_view() + confirm(yes, flag@));
    }
}

/// An environment of one variable.
pub fn env_one(name: String, value: String) -> (r: Vec<(String, String)>)
    ensures
        r.deep_view() == seq![(name@, value@)],
{
    let ghost nv = (name@, value@);
    let r = vec![(name, value)];
    assert(r.deep_view() =~= seq![nv]);
    r
}

/// Appends one variable to an environment.
pub fn push_env(env: &mut Vec<(String, String)>, name: String, value: String)
    ensures
        final(env).deep_view() == old(env).deep_view().push((name@, value@)),
{
    let ghost nv = (name@, value@);
    env.push((name, value));
    assert(env.deep_view() =~= old(env).deep_view().push(nv));
}

/// A run whose only accepted exit code is zero.
pub fn make_run(
    program: String,
    args: Vec<String>,
    env: Vec<(String, String)>,
    stage: Stage,
) -> (r: Invocation)
    ensures
        r@ == run(program@, args.deep_view(), env.deep_view(), stage),
{
    let r = Invocation { program, args, env, ok_codes: vec![0i32], stage };
    assert(r.ok_codes@ =~= seq![0i32]);
    r
}

} // verus!
