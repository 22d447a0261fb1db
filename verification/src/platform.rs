//! What the agent was built for, and how its paths are written there.

use crate::text;
use vstd::prelude::*;

verus! {

/// The operating system that the agent runs on.
#[derive(Clone, Copy, PartialEq, Eq, Structural, Debug)]
pub enum Platform {
    Linux,
    Macos,
    Windows,
}

/// What the agent was built for.
#[derive(Clone, Copy, PartialEq, Eq, Structural, Debug)]
pub struct Build {
    pub platform: Platform,
    /// The secondary OTLP output is built in.
    pub otlp: bool,
}

/// The version of this package.
pub fn package_version() -> (r: &'static str)
    ensures
        r@ == "0.3.2"@,
{
    "0.3.2"
}

/// What the agent answers when it is asked for its version.
pub fn agent_version_output() -> (r: &'static str)
    ensures
        r@ == "unionc-agent 0.3.2"@,
{
    "unionc-agent 0.3.2"
}

/// `base` is nothing but the name of a drive.
pub open spec fn is_drive(base: Seq<char>) -> bool {
    base.len() == 2 && base[1] == ':' && ('a' <= base[0] <= 'z' || 'A' <= base[0] <= 'Z')
}

/// `name` below the directory `base` on Windows. A separator comes in between where `base` does
/// not end in one; a path that is empty, or nothing but a drive, takes the name as it is.
pub open spec fn below(base: Seq<char>, name: Seq<char>) -> Seq<char> {
    if base.len() == 0 || base.last() == '\\' || base.last() == '/' || is_drive(base) {
        base + name
    } else {
        base + "\\"@ + name
    }
}

/// `name` below the directory `base` on Windows.
pub fn path_below(base: &str, name: &str) -> (r: String)
    ensures
        r@ == below(base@, name@),
{
    let chars = text::to_chars(base);
    let n: usize = chars.len();
    if n == 0 || chars[n - 1] == '\\' || chars[n - 1] == '/' {
        return text::cat(base, name);
    }
    if n == 2 && chars[1] == ':' && ('a' <= chars[0] && chars[0] <= 'z' || 'A' <= chars[0]
        && chars[0] <= 'Z') {
        return text::cat(base, name);
    }
    text::cat3(base, "\\", name)
}

/// A name is put below a directory behind a separator; none is added where one stands already, or
/// where the directory is a bare drive or nothing.
pub proof fn one_separator_stands_between(base: Seq<char>, name: Seq<char>)
    ensures
        below(base + "\\"@, name) == base + "\\"@ + name,
        below(Seq::empty(), name) == name,
        base.len() > 0 && base.last() != '\\' && base.last() != '/' && !is_drive(base) ==> below(
            base,
            name,
        ) == base + "\\"@ + name,
        base.len() > 0 && base.last() == '/' ==> below(base, name) == base + name,
        is_drive(base) ==> below(base, name) == base + name,
{
    reveal_strlit("\\");
    assert((base + "\\"@).last() == '\\');
    assert(Seq::<char>::empty() + name =~= name);
}

} // verus!
