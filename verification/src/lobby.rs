//! The lobby view's "time ago" texts.

use vstd::prelude::*;

use crate::text::{decimal, push_char, push_decimal, push_str};

verus! {

/// `count`, a space, `word` (with an `s` unless the count is one), a space and `suffix`.
pub open spec fn pluralized(count: nat, word: Seq<char>, suffix: Seq<char>) -> Seq<char> {
    decimal(count) + seq![' '] + word + (if count == 1 {
        seq![]
    } else {
        seq!['s']
    }) + seq![' '] + suffix
}

/// `count word(s) suffix`.
pub fn pluralize_ago(count: u64, word: &str, suffix: &str) -> (r: String)
    ensures
        r@ == pluralized(count as nat, word@, suffix@),
{
    let mut s = String::new();
    push_decimal(&mut s, count);
    push_char(&mut s, ' ');
    push_str(&mut s, word);
    if count != 1 {
        push_char(&mut s, 's');
    }
    push_char(&mut s, ' ');
    push_str(&mut s, suffix);
    assert(s@ =~= pluralized(count as nat, word@, suffix@));
    s
}

/// How long ago something happened, and in how many seconds the text changes: seconds under
/// a minute, minutes under an hour, else hours and minutes.
pub open spec fn ago_text(seconds: nat) -> (Seq<char>, nat) {
    if seconds < 60 {
        (pluralized(seconds, "second"@, "ago"@), 1)
    } else if seconds < 3600 {
        (pluralized(seconds / 60, "minute"@, "ago"@), 60)
    } else {
        (
            pluralized(seconds / 3600, "hour"@, ""@) + pluralized((seconds % 3600) / 60, "minute"@, "ago"@),
            60,
        )
    }
}

/// How long ago something happened, and in how many seconds the text should be redrawn.
pub fn format_seconds(seconds: u64) -> (r: (String, u64))
    ensures
        r.0@ == ago_text(seconds as nat).0,
        r.1 == ago_text(seconds as nat).1,
{
    if seconds < 60 {
        (pluralize_ago(seconds, "second", "ago"), 1)
    } else if seconds < 3600 {
        (pluralize_ago(seconds / 60, "minute", "ago"), 60)
    } else {
        let mut s = pluralize_ago(seconds / 3600, "hour", "");
        let m = pluralize_ago((seconds % 3600) / 60, "minute", "ago");
        push_str(&mut s, m.as_str());
        (s, 60)
    }
}

} // verus!
