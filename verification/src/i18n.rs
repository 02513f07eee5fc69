//! The built-in translation table: a list of (key, locale, text) entries with
//! an exact lookup function. The table contents live in [`crate::translations`];
//! a lookup returns the text recorded for the key, or the key itself when the
//! table has no entry for it, so an unresolved key never fails.

use vstd::prelude::*;
use vstd::string::StrSliceExecFns;
use crate::lang::Language;
use crate::strings::str_eq;
use crate::translations;

verus! {

/// One translated string: a lookup key, the locale it serves, and the text.
pub struct TranslationEntry {
    pub key: String,
    pub lang: Language,
    pub value: String,
}

impl View for TranslationEntry {
    type V = (Seq<char>, Language, Seq<char>);

    open spec fn view(&self) -> (Seq<char>, Language, Seq<char>) {
        (self.key@, self.lang, self.value@)
    }
}

/// What a lookup in a table returns: the text of the latest entry recorded
/// for `(key, lang)`, or `key` itself when no entry matches.
pub open spec fn spec_lookup(
    table: Seq<(Seq<char>, Language, Seq<char>)>,
    key: Seq<char>,
    lang: Language,
) -> Seq<char>
    decreases table.len(),
{
    if table.len() == 0 {
        key
    } else if table.last().0 == key && table.last().1 == lang {
        table.last().2
    } else {
        spec_lookup(table.drop_last(), key, lang)
    }
}

/// The table that [`I18n::new`] builds.
pub closed spec fn default_table() -> Seq<(Seq<char>, Language, Seq<char>)> {
    translations::with_all_strings(Seq::empty())
}

/// The translation store: every built-in message of the tool, in both locales.
pub struct I18n {
    entries: Vec<TranslationEntry>,
}

impl I18n {
    /// The table as a sequence of (key, locale, text) triples, in the order
    /// the entries were recorded; a later entry shadows an earlier one.
    pub closed spec fn table(&self) -> Seq<(Seq<char>, Language, Seq<char>)> {
        self.entries@.map(|i: int, e: TranslationEntry| e@)
    }

    /// A store loaded with the full built-in table.
    pub fn new() -> (r: Self)
        ensures
            r.table() == default_table(),
    {
        let mut r = I18n { entries: Vec::new() };
        proof {
            assert(r.table() =~= Seq::<(Seq<char>, Language, Seq<char>)>::empty());
        }
        r.load_translations();
        r
    }

    /// The text recorded for `key` in `lang`, or `key` itself when unmapped.
    pub fn t(&self, key: &str, lang: Language) -> (r: String)
        ensures
            r@ == spec_lookup(self.table(), key@, lang),
    {
        proof {
            assert(self.table().take(self.entries@.len() as int) =~= self.table());
        }
        let mut i: usize = self.entries.len();
        while i > 0
            invariant
                i <= self.entries.len(),
                spec_lookup(self.table(), key@, lang) == spec_lookup(
                    self.table().take(i as int),
                    key@,
                    lang,
                ),
            decreases i,
        {
            i = i - 1;
            let e = &self.entries[i];
            proof {
                assert(self.table().take(i + 1).last() == self.table()[i as int]);
                assert(self.table().take(i + 1).drop_last() =~= self.table().take(i as int));
            }
            if str_eq(e.key.as_str(), key) && e.lang == lang {
                return e.value.clone();
            }
        }
        key.to_owned()
    }

    /// Records one entry at the end of the table.
    pub(crate) fn add_translation(&mut self, key: &str, lang: Language, value: &str)
        ensures
            final(self).table() == old(self).table().push((key@, lang, value@)),
    {
        self.entries.push(
            TranslationEntry { key: key.to_owned(), lang, value: value.to_owned() },
        );
        proof {
            assert(self.table() =~= old(self).table().push((key@, lang, value@)));
        }
    }

    /// Records every built-in entry.
    fn load_translations(&mut self)
        ensures
            final(self).table() == translations::with_all_strings(old(self).table()),
    {
        translations::add_all_strings(self);
    }
}

impl Default for I18n {
    /// The default store is the fully loaded one.
    fn default() -> (r: Self)
        ensures
            r.table() == default_table(),
    {
        Self::new()
    }
}

/// Localizes `key` for `lang` against the built-in table.
pub fn i18n(key: &str, lang: Language) -> (r: String)
    ensures
        r@ == spec_lookup(default_table(), key@, lang),
{
    I18n::new().t(key, lang)
}

} // verus!
