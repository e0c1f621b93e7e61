//! The greeting banner shown when the application starts.

use colored::Colorize;
use vstd::prelude::*;

verus! {

/// The banner text, before any colouring.
pub open spec fn spec_banner() -> Seq<char> {
    "\n    _________                           \n   /   _____/ ____   ____ _____ _______ \n   \\_____  \\ /  _ \\ /    \\\\__  \\\\_  __ \\\n   /        (  <_> )   |  \\/ __ \\|  | \\/\n  /_______  /\\____/|___|  (____  /__|   \n          \\/            \\/     \\/          \n   "@
}

fn banner_text() -> (r: &'static str)
    ensures
        r@ == spec_banner(),
{
    "\n    _________                           \n   /   _____/ ____   ____ _____ _______ \n   \\_____  \\ /  _ \\ /    \\\\__  \\\\_  __ \\\n   /        (  <_> )   |  \\/ __ \\|  | \\/\n  /_______  /\\____/|___|  (____  /__|   \n          \\/            \\/     \\/          \n   "
}

/// Relies on colored's `Colorize::green` and the `Display` of its
/// `ColoredString`: the rendering writes the input through unchanged, either
/// bare or between an ANSI style prefix and the reset suffix, provided the
/// input holds no escape character of its own.
#[verifier::external_body]
fn colorize_green(s: &str) -> (r: String)
    requires
        forall|i: int| 0 <= i < s@.len() ==> s@[i] != '\u{1b}',
    ensures
        exists|pre: Seq<char>, post: Seq<char>| r@ == pre + s@ + post,
{
    s.green().to_string()
}

/// The application's greeting banner, coloured green for the console. The
/// result always carries the banner text itself, whatever colouring the
/// console settings allow.
pub fn print_banner() -> (r: String)
    ensures
        exists|pre: Seq<char>, post: Seq<char>| r@ == pre + spec_banner() + post,
{
    let banner = banner_text();
    if !banner.is_ascii() {
        let r = String::from_str(banner);
        proof {
            assert(r@ =~= Seq::<char>::empty() + spec_banner() + Seq::<char>::empty());
        }
        return r;
    }
    let n = banner.unicode_len();
    let mut i: usize = 0;
    while i < n
        invariant
            banner.is_ascii(),
            banner@ == spec_banner(),
            n == banner@.len(),
            i <= n,
            forall|j: int| 0 <= j < i ==> banner@[j] != '\u{1b}',
        decreases n - i,
    {
        if banner.get_ascii(i) == 27 {
            let r = String::from_str(banner);
            proof {
                assert(r@ =~= Seq::<char>::empty() + spec_banner() + Seq::<char>::empty());
            }
            return r;
        }
        proof {
            assert(banner@[i as int] as u8 != 27);
            assert('\u{1b}' as u8 == 27);
        }
        i = i + 1;
    }
    colorize_green(banner)
}

} // verus!
