//! Placeholder usernames for users who sign up without one.

use vstd::prelude::*;
use vstd::string::*;

verus! {

/// What every numbered name ends in: a hyphen and four decimal digits,
/// after an adjective, a hyphen and a noun.
pub open spec fn numbered(token: Seq<char>) -> bool {
    &&& token.len() >= 6
    &&& token[token.len() - 5] == '-'
    &&& forall|i: int| token.len() - 4 <= i < token.len() ==> '0' <= #[trigger] token[i] <= '9'
}

/// The prefix of every guest name.
pub open spec fn guest_prefix() -> Seq<char> {
    seq!['g', 'u', 'e', 's', 't', '-']
}

/// A guest name is the prefix followed by a numbered name.
pub open spec fn is_guest_name(name: Seq<char>) -> bool {
    &&& name.len() >= 12
    &&& name.subrange(0, 6) == guest_prefix()
    &&& numbered(name.subrange(6, name.len() as int))
}

/// Draws one name from `names::Generator::with_naming(Name::Numbered)` by
/// its `next`. That generator picks an adjective and a noun at random and
/// formats them as `ADJECTIVE-NOUN-NUMBER`, the number drawn from 1 to 9999
/// and padded to four digits; it always yields a name. Which name comes is
/// left open: two calls may differ.
#[verifier::external_body]
fn numbered_name() -> (token: Option<String>)
    ensures
        token is Some,
        numbered(token->Some_0@),
{
    let mut generator = names::Generator::with_naming(names::Name::Numbered);
    generator.next()
}

/// The guest name made from a token.
pub fn guest_name(token: &str) -> (name: String)
    ensures
        name@ == guest_prefix() + token@,
{
    proof {
        reveal_strlit("guest-");
    }
    let prefix = "guest-";
    assert(prefix@ =~= guest_prefix());
    String::from_str(prefix).concat(token)
}

/// Mints a placeholder username. Nothing makes two minted names differ:
/// where names must be unique, the store has to see to it.
pub fn random_guest_name() -> (name: String)
    ensures
        is_guest_name(name@),
{
    // The generator never runs dry, so the second arm is not taken.
    let token = match numbered_name() {
        Some(token) => token,
        None => String::new(),
    };
    let name = guest_name(token.as_str());
    assert(name@.subrange(0, 6) =~= guest_prefix());
    assert(name@.subrange(6, name@.len() as int) =~= token@);
    name
}

} // verus!
