//! Email address records and the text forms in which they are shown.
use vstd::prelude::*;
use vstd::string::StringExecFns;

verus! {

/// The text that `{:?}` writes for the string `s`: quoted, with escapes.
pub uninterp spec fn debug_quoted(s: Seq<char>) -> Seq<char>;

/// The decimal digits of `n`, most significant first.
pub open spec fn digits(n: nat) -> Seq<char>
    decreases n,
{
    let d = seq!['0', '1', '2', '3', '4', '5', '6', '7', '8', '9'][(n % 10) as int];
    if n < 10 {
        seq![d]
    } else {
        digits(n / 10).push(d)
    }
}

/// `n` written in decimal, with a leading `-` when negative.
pub open spec fn decimal(n: int) -> Seq<char> {
    if n < 0 {
        seq!['-'] + digits((-n) as nat)
    } else {
        digits(n as nat)
    }
}

/// Relies on `Debug` for `str` (`format!("{:?}", s)`), which writes the string
/// quoted and escaped; the text depends on the string alone.
#[verifier::external_body]
fn debug_text(s: &str) -> (r: String)
    ensures
        r@ == debug_quoted(s@),
{
    format!("{:?}", s)
}

/// Relies on `Display` for `i32` (`to_string`), which writes the number in
/// decimal, with a `-` before a negative one.
#[verifier::external_body]
fn decimal_text(n: i32) -> (r: String)
    ensures
        r@ == decimal(n as int),
{
    n.to_string()
}

/// ANSI escape that turns the terminal's text green.
pub open spec fn green() -> Seq<char> {
    "\x1b[32m"@
}

/// ANSI escape that resets the terminal's text colour.
pub open spec fn reset() -> Seq<char> {
    "\x1b[0m"@
}

/// A stored email address and its row id.
#[derive(Clone, Debug, PartialEq, Eq)]
pub struct Email {
    pub id: i32,
    pub value: String,
}

/// An email address as shown in a list.
#[derive(Clone, Debug, PartialEq, Eq)]
pub struct PrintableEmail {
    value: String,
}

/// An email address with its id, as shown in detail.
#[derive(Clone, Debug, PartialEq, Eq)]
pub struct DetailedEmail {
    id: i32,
    value: String,
}

/// An email address to be stored, borrowed.
#[derive(Clone, Copy, Debug, PartialEq, Eq)]
pub struct NewEmail<'a> {
    pub value: &'a str,
}

/// An email address to be stored.
#[derive(Clone, Debug, PartialEq, Eq)]
pub struct NewEmailOwned {
    pub value: String,
}

impl Email {
    /// The address itself.
    pub fn to_display_string(&self) -> (r: String)
        ensures
            r@ == self.value@,
    {
        self.value.clone()
    }

    /// The list form of this record.
    pub fn printable(&self) -> (r: PrintableEmail)
        ensures
            r.value() == self.value@,
    {
        PrintableEmail { value: self.value.clone() }
    }

    /// The detailed form of this record.
    pub fn detailed(&self) -> (r: DetailedEmail)
        ensures
            r.id() == self.id,
            r.value() == self.value@,
    {
        DetailedEmail { id: self.id, value: self.value.clone() }
    }
}

impl NewEmailOwned {
    /// The list form of the address to be stored.
    pub fn printable(&self) -> (r: PrintableEmail)
        ensures
            r.value() == self.value@,
    {
        PrintableEmail { value: self.value.clone() }
    }
}

impl PrintableEmail {
    pub closed spec fn value(&self) -> Seq<char> {
        self.value@
    }

    /// The address, quoted and escaped.
    pub fn to_display_string(&self) -> (r: String)
        ensures
            r@ == debug_quoted(self.value()),
    {
        debug_text(self.value.as_str())
    }
}

impl DetailedEmail {
    pub closed spec fn id(&self) -> i32 {
        self.id
    }

    pub closed spec fn value(&self) -> Seq<char> {
        self.value@
    }

    /// `#id, "address"`, each part in green.
    pub fn to_display_string(&self) -> (r: String)
        ensures
            r@ == green() + "#"@ + decimal(self.id() as int) + reset() + ", "@ + green()
                + debug_quoted(self.value()) + reset(),
    {
        let mut s = String::from_str("\x1b[32m#");
        let n = decimal_text(self.id);
        s.append(n.as_str());
        s.append("\x1b[0m, \x1b[32m");
        let q = debug_text(self.value.as_str());
        s.append(q.as_str());
        s.append("\x1b[0m");
        proof {
            reveal_strlit("\x1b[32m#");
            reveal_strlit("\x1b[32m");
            reveal_strlit("#");
            reveal_strlit("\x1b[0m, \x1b[32m");
            reveal_strlit("\x1b[0m");
            reveal_strlit(", ");
        }
        assert(s@ =~= green() + "#"@ + decimal(self.id() as int) + reset() + ", "@ + green()
            + debug_quoted(self.value()) + reset());
        s
    }
}

} // verus!
