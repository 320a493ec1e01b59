use vstd::prelude::*;

verus! {

/// What `str::trim` leaves of a text: it without leading and trailing white space.
pub uninterp spec fn trimmed_of(s: Seq<char>) -> Seq<char>;

/// What `str::replace` makes of `s` with every `from` turned into `to`.
pub uninterp spec fn replaced_of(s: Seq<char>, from: Seq<char>, to: Seq<char>) -> Seq<char>;

/// Relies on `str::trim`: the result depends on the text alone.
#[verifier::external_body]
fn trim_text(s: &str) -> (r: String)
    ensures
        r@ == trimmed_of(s@),
{
    s.trim().to_string()
}

/// Relies on `str::replace`: the result depends on the three texts alone.
#[verifier::external_body]
fn replace_text(s: &str, from: &str, to: &str) -> (r: String)
    ensures
        r@ == replaced_of(s@, from@, to@),
{
    s.replace(from, to)
}

/// The version shown to clients, from what the compiler prints for
/// `--version`: trimmed, with the tool's internal name `zrc_cli` shown as
/// `Zirco`.
pub fn version_label(raw: &str) -> (r: String)
    ensures
        r@ == replaced_of(trimmed_of(raw@), "zrc_cli"@, "Zirco"@),
{
    let t = trim_text(raw);
    replace_text(t.as_str(), "zrc_cli", "Zirco")
}

} // verus!
