use crate::remark::{Message, Remark, Render};
use vstd::prelude::*;

verus! {

/// What a remark with message `msg` makes of `res`: a success unchanged, a failure wrapped.
pub open spec fn with_remark<T, E>(res: Result<T, E>, msg: Message) -> Result<T, Remark<E>> {
    match res {
        Ok(v) => Ok(v),
        Err(e) => Err(Remark { error: e, msg }),
    }
}

/// The texts of `parts` in order, separated by `", "`.
pub open spec fn joined(parts: Seq<Seq<char>>) -> Seq<char>
    decreases parts.len(),
{
    if parts.len() == 0 {
        Seq::empty()
    } else if parts.len() == 1 {
        parts[0]
    } else {
        joined(parts.drop_last()) + ", "@ + parts.last()
    }
}

/// The views of a list of strings.
pub open spec fn texts(vars: Seq<String>) -> Seq<Seq<char>> {
    vars.map_values(|v: String| v@)
}

/// The message of a remark with context: `msg`, a space, then the values' texts joined by
/// `", "` in one pair of parentheses.
pub open spec fn context_message(msg: Seq<char>, vars: Seq<String>) -> Seq<char> {
    msg + " ("@ + joined(texts(vars)) + ")"@
}

/// Builds `context_message(msg@, vars@)`.
pub fn build_context_message(msg: &str, vars: &[String]) -> (r: String)
    ensures
        r@ == context_message(msg@, vars@),
{
    let mut s = msg.to_owned();
    s.append(" (");
    let n = vars.len();
    let mut i: usize = 0;
    while i < n
        invariant
            n == vars@.len(),
            i <= n,
            s@ == msg@ + " ("@ + joined(texts(vars@.take(i as int))),
        decreases n - i,
    {
        if i > 0 {
            s.append(", ");
        }
        s.append(vars[i].as_str());
        proof {
            let ts = texts(vars@.take(i + 1));
            assert(ts.drop_last() =~= texts(vars@.take(i as int)));
            assert(ts.last() == vars@[i as int]@);
            assert(s@ =~= msg@ + " ("@ + joined(ts));
        }
        i = i + 1;
    }
    s.append(")");
    proof {
        assert(vars@.take(n as int) =~= vars@);
    }
    s
}

/// Adds remark methods to `Result`.
pub trait ResultExt<T, E>: Sized {
    /// The result as a plain `Result`.
    spec fn outcome(self) -> Result<T, E>;

    /// Add a remark if the result is an `Err`.
    fn err_remark(self, msg: &'static str) -> (r: Result<T, Remark<E>>)
        ensures
            r == with_remark(self.outcome(), Message::Fixed(msg)),
    ;

    /// Add a remark if the result is an `Err`, followed by the debug texts of some values that
    /// give more context.
    fn err_remark_vars(self, msg: &'static str, vars: &[String]) -> (r: Result<T, Remark<E>>)
        ensures
            match (self.outcome(), r) {
                (Ok(v), Ok(w)) => w == v,
                (Err(e), Err(rm)) => rm.error == e && rm.msg@ == context_message(msg@, vars@),
                _ => false,
            },
    ;
}

impl<T, E> ResultExt<T, E> for Result<T, E> {
    open spec fn outcome(self) -> Result<T, E> {
        self
    }

    fn err_remark(self, msg: &'static str) -> (r: Result<T, Remark<E>>) {
        match self {
            Ok(v) => Ok(v),
            Err(e) => Err(Remark::new_str(e, msg)),
        }
    }

    fn err_remark_vars(self, msg: &'static str, vars: &[String]) -> (r: Result<T, Remark<E>>) {
        match self {
            Ok(v) => Ok(v),
            Err(e) => Err(Remark::new_string(e, build_context_message(msg, vars))),
        }
    }
}

/// A remark leaves a success as it was, whatever the message.
pub proof fn lemma_success_unchanged<T, E>(v: T, msg: Message)
    ensures
        with_remark(Ok::<T, E>(v), msg) == Ok::<T, Remark<E>>(v),
{
}

/// A failure remarked with a fixed message `m` shows as `m`, then `": "`, then the error's own
/// text.
pub proof fn lemma_remark_shows_message<T, E: Render>(e: E, m: &'static str)
    ensures
        match with_remark(Err::<T, E>(e), Message::Fixed(m)) {
            Err(rm) => rm.rendered() == m@ + ": "@ + e.rendered(),
            Ok(_) => false,
        },
{
}

/// Remarks stack: remarking a failure with `m1` and then again with `m2` shows as `m2`, `": "`,
/// `m1`, `": "`, then the error's own text.
pub proof fn lemma_stacked_remarks<T, E: Render>(e: E, m1: &'static str, m2: &'static str)
    ensures
        match with_remark(Err::<T, E>(e), Message::Fixed(m1)) {
            Err(first) => match with_remark(Err::<T, Remark<E>>(first), Message::Fixed(m2)) {
                Err(second) => second.rendered() == m2@ + ": "@ + m1@ + ": "@ + e.rendered(),
                Ok(_) => false,
            },
            Ok(_) => false,
        },
{
    let sep = ": "@;
    assert(m2@ + sep + (m1@ + sep + e.rendered()) =~= m2@ + sep + m1@ + sep + e.rendered());
}

/// With no context values the message still ends in an empty pair of parentheses.
pub proof fn lemma_empty_context(msg: Seq<char>)
    ensures
        context_message(msg, Seq::empty()) == msg + " ()"@,
{
    reveal_strlit(" (");
    reveal_strlit(")");
    reveal_strlit(" ()");
    assert(texts(Seq::empty()) =~= Seq::<Seq<char>>::empty());
    assert(msg + " ("@ + Seq::<char>::empty() + ")"@ =~= msg + " ()"@);
}

} // verus!
