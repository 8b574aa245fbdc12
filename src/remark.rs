use vstd::prelude::*;

verus! {

/// The text of a remark: a literal known at compile time, which costs no allocation, or a
/// string built at run time.
pub enum Message {
    Fixed(&'static str),
    Built(String),
}

impl View for Message {
    type V = Seq<char>;

    open spec fn view(&self) -> Seq<char> {
        match self {
            Message::Fixed(s) => s@,
            Message::Built(s) => s@,
        }
    }
}

impl Message {
    /// The message's text.
    pub fn as_str(&self) -> (r: &str)
        ensures
            r@ == self@,
    {
        match self {
            Message::Fixed(s) => s,
            Message::Built(s) => s.as_str(),
        }
    }
}

/// An error with a comment giving human-readable context about what was going on when it
/// happened.
pub struct Remark<E> {
    /// The error being remarked upon.
    pub error: E,
    /// A human-readable comment giving context about the error.
    pub msg: Message,
}

impl<E> Remark<E> {
    /// Attach a fixed message to an error.
    pub fn new_str(error: E, s: &'static str) -> (r: Self)
        ensures
            r.error == error,
            r.msg == Message::Fixed(s),
    {
        Remark { msg: Message::Fixed(s), error }
    }

    /// Attach an owned string message to an error.
    pub fn new_string(error: E, s: String) -> (r: Self)
        ensures
            r.error == error,
            r.msg == Message::Built(s),
    {
        Remark { msg: Message::Built(s), error }
    }
}

/// A value with a human-readable text, as shown to a user.
pub trait Render {
    /// The text that `render` produces.
    spec fn rendered(&self) -> Seq<char>;

    fn render(&self) -> (r: String)
        ensures
            r@ == self.rendered(),
    ;
}

impl<'a> Render for &'a str {
    open spec fn rendered(&self) -> Seq<char> {
        (**self)@
    }

    fn render(&self) -> (r: String) {
        (**self).to_owned()
    }
}

impl Render for String {
    open spec fn rendered(&self) -> Seq<char> {
        self@
    }

    fn render(&self) -> (r: String) {
        self.clone()
    }
}

impl<E: Render> Remark<E> {
    /// The message, then `": "`, then the inner error's own text.
    pub fn to_string(&self) -> (r: String)
        ensures
            r@ == self.msg@ + ": "@ + self.error.rendered(),
    {
        let mut s = self.msg.as_str().to_owned();
        s.append(": ");
        let inner = self.error.render();
        s.append(inner.as_str());
        s
    }
}

impl<E: Render> Render for Remark<E> {
    open spec fn rendered(&self) -> Seq<char> {
        self.msg@ + ": "@ + self.error.rendered()
    }

    fn render(&self) -> (r: String) {
        self.to_string()
    }
}

impl<E> core::ops::Deref for Remark<E> {
    type Target = E;

    /// Read-only access to the inner error, so that its own fields and methods stay at hand.
    fn deref(&self) -> (r: &E)
        ensures
            *r == self.error,
    {
        &self.error
    }
}

/// std's `core::fmt::Formatter`, carried through the `Debug` impl below.
#[verifier::external_type_specification]
#[verifier::external_body]
pub struct ExFormatter<'a>(core::fmt::Formatter<'a>);

/// std's `core::fmt::Error`, the failure of a formatting call.
#[verifier::external_type_specification]
#[verifier::external_body]
pub struct ExFmtError(core::fmt::Error);

impl<E: core::fmt::Debug> core::fmt::Debug for Remark<E> {
    /// Relies on std's `Formatter::debug_map`: a map of one entry, whose key is the message and
    /// whose value is the inner error, rendered under the caller's formatting flags.
    #[verifier::external_body]
    fn fmt(&self, f: &mut core::fmt::Formatter<'_>) -> core::fmt::Result {
        f.debug_map().entry(&self.msg.as_str(), &self.error).finish()
    }
}

} // verus!
