//! Quoting for the shells that run host commands.
use crate::text::{append_str, owned, replace_all, replace_str, starts_with};
use vstd::prelude::*;

verus! {

/// A PowerShell single-quoted string literal.
pub open spec fn powershell_single_quote_spec(value: Seq<char>) -> Seq<char> {
    "'"@ + replace_all(value, "'"@, "''"@) + "'"@
}

/// A POSIX shell single-quoted word.
pub open spec fn sh_single_quote_spec(value: Seq<char>) -> Seq<char> {
    "'"@ + replace_all(value, "'"@, "'\\''"@) + "'"@
}

/// A `cmd.exe` double-quoted word.
pub open spec fn cmd_quote_spec(value: Seq<char>) -> Seq<char> {
    "\""@ + replace_all(value, "\""@, "\"\""@) + "\""@
}

/// Quotes a value for PowerShell: `'...'` with inner quotes doubled.
pub fn powershell_single_quote(value: &str) -> (r: String)
    ensures
        r@ == powershell_single_quote_spec(value@),
{
    proof {
        reveal_strlit("'");
    }
    let inner = replace_str(value, "'", "''");
    let mut r = owned("'");
    append_str(&mut r, inner.as_str());
    append_str(&mut r, "'");
    r
}

/// Quotes a value for `sh`: `'...'` with each inner quote written `'\''`.
pub fn sh_single_quote(value: &str) -> (r: String)
    ensures
        r@ == sh_single_quote_spec(value@),
{
    proof {
        reveal_strlit("'");
    }
    let inner = replace_str(value, "'", "'\\''");
    let mut r = owned("'");
    append_str(&mut r, inner.as_str());
    append_str(&mut r, "'");
    r
}

/// Quotes a value for `cmd.exe`: `"..."` with inner quotes doubled.
pub fn cmd_quote(value: &str) -> (r: String)
    ensures
        r@ == cmd_quote_spec(value@),
{
    proof {
        reveal_strlit("\"");
    }
    let inner = replace_str(value, "\"", "\"\"");
    let mut r = owned("\"");
    append_str(&mut r, inner.as_str());
    append_str(&mut r, "\"");
    r
}

/// What the inside of a PowerShell single-quoted string stands for: each
/// `''` is one `'`, every other character itself; a lone `'` would end the
/// string early, so such an inside stands for nothing (`None`).
pub open spec fn powershell_quoted_value(inside: Seq<char>) -> Option<Seq<char>>
    decreases inside.len(),
{
    if inside.len() == 0 {
        Some(Seq::empty())
    } else if inside[0] == '\'' {
        if inside.len() >= 2 && inside[1] == '\'' {
            match powershell_quoted_value(inside.skip(2)) {
                Some(v) => Some(seq!['\''] + v),
                None => None,
            }
        } else {
            None
        }
    } else {
        match powershell_quoted_value(inside.skip(1)) {
            Some(v) => Some(seq![inside[0]] + v),
            None => None,
        }
    }
}

/// A PowerShell single-quoted word reads back as the value it quotes: it
/// is `'`, an inside that stands for exactly the value, and `'`.
pub proof fn law_powershell_quote_reads_back(value: Seq<char>)
    ensures
        exists|inside: Seq<char>|
            powershell_single_quote_spec(value) == #[trigger] ("'"@ + inside + "'"@) && powershell_quoted_value(inside)
                == Some(value),
    decreases value.len(),
{
    let inside = replace_all(value, "'"@, "''"@);
    lemma_doubled_quotes_read_back(value);
    assert(powershell_single_quote_spec(value) == "'"@ + inside + "'"@);
}

proof fn lemma_doubled_quotes_read_back(value: Seq<char>)
    ensures
        powershell_quoted_value(replace_all(value, "'"@, "''"@)) == Some(value),
    decreases value.len(),
{
    reveal_strlit("'");
    reveal_strlit("''");
    let e = replace_all(value, "'"@, "''"@);
    if value.len() == 0 {
        assert(value =~= Seq::<char>::empty());
    } else if starts_with(value, "'"@) {
        lemma_doubled_quotes_read_back(value.skip(1));
        assert(value.subrange(0, 1)[0] == value[0]);
        assert("'"@[0] == '\'');
        assert(value[0] == '\'');
        assert(e == "''"@ + replace_all(value.skip(1), "'"@, "''"@));
        assert(e.skip(2) =~= replace_all(value.skip(1), "'"@, "''"@));
        assert(seq!['\''] + value.skip(1) =~= value);
    } else {
        lemma_doubled_quotes_read_back(value.skip(1));
        assert(value[0] != '\'') by {
            if value[0] == '\'' {
                assert(value.subrange(0, 1) =~= "'"@);
            }
        }
        assert(e.skip(1) =~= replace_all(value.skip(1), "'"@, "''"@));
        assert(seq![value[0]] + value.skip(1) =~= value);
    }
}

} // verus!
