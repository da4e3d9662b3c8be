//! The two calls into patois, the localization catalog the host application registers.

use vstd::prelude::*;

verus! {

/// A message with a singular and a plural form, and the count that picks between them.
pub struct PluralMessage {
    pub singular: &'static str,
    pub plural: &'static str,
    pub count: u64,
}

/// Whether `text` is one of the texts `patois::t` may hand back for `msgid`. Which one it
/// hands back depends on the catalog registered at the time of the call, so this is a relation
/// between the message and its possible texts, not a function of the message.
pub uninterp spec fn catalog_text(msgid: Seq<char>, text: Seq<char>) -> bool;

/// Whether `text` is one of the texts `patois::nt` may hand back for the message with these
/// singular and plural forms and this count. Which one it hands back depends on the catalog
/// registered at the time of the call, so this is a relation, not a function of the message.
pub uninterp spec fn catalog_plural_text(singular: Seq<char>, plural: Seq<char>, count: nat, text: Seq<char>) -> bool;

/// Calls `patois::t`, which looks `msgid` up in the default domain registered with patois.
///
/// Which text comes back depends on the domain and locale registered at the time of the call,
/// which are process-wide state: `msgid` itself when nothing is registered or the catalog has
/// no entry, else the catalog's entry, and catalogs hold no empty entries. So the contract
/// states that the text is one that `msgid` may be given, and that a non-empty `msgid` gives a
/// non-empty text.
#[verifier::external_body]
pub(crate) fn localize(msgid: &str) -> (text: String)
    ensures
        catalog_text(msgid@, text@),
        msgid@.len() > 0 ==> text@.len() > 0,
{
    patois::t(msgid)
}

/// Calls `patois::nt` on `message`, which picks the form that goes with its count in the
/// default domain registered with patois.
///
/// Which text comes back depends on the domain and locale registered at the time of the call,
/// which are process-wide state: with no catalog entry it is the singular form for a count of
/// 1 and the plural form otherwise, else one of the catalog's forms, and catalogs hold no empty
/// forms. So the contract states that the text is one that the message may be given, and that
/// non-empty forms give a non-empty text.
#[verifier::external_body]
pub(crate) fn localize_plural(message: &PluralMessage) -> (text: String)
    ensures
        catalog_plural_text(message.singular@, message.plural@, message.count as nat, text@),
        message.singular@.len() > 0 && message.plural@.len() > 0 ==> text@.len() > 0,
{
    patois::nt(message.singular, message.plural, message.count)
}

} // verus!
