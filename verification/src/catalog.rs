//! The template catalog: notification texts keyed by kind, and the
//! placeholder substitution applied to them.

use vstd::prelude::*;

verus! {

use crate::text::{
    chars_of, lemma_replace_absent, occurs, push_all, replace_all, replace_spec,
    string_from_chars,
};

/// The mathematical shape of a notification template.
pub struct InfoView {
    pub title: Seq<char>,
    pub body: Seq<char>,
    pub params: Option<Seq<Seq<char>>>,
}

/// A notification template: a title and body with `%key%` placeholders,
/// and an optional list of parameter names carried along from the
/// catalog source.
#[derive(Debug)]
pub struct NotificationInformation {
    pub title: String,
    pub body: String,
    pub params: Option<Vec<String>>,
}

impl View for NotificationInformation {
    type V = InfoView;

    open spec fn view(&self) -> InfoView {
        InfoView {
            title: self.title@,
            body: self.body@,
            params: self.params.deep_view(),
        }
    }
}

/// The placeholder spelled by a key: the key between two percent signs.
pub open spec fn pattern_of(key: Seq<char>) -> Seq<char> {
    seq!['%'] + key + seq!['%']
}

/// The result of substituting each pair in order: every occurrence of
/// `%key%` is replaced by the pair's value.
pub open spec fn subst_all(s: Seq<char>, pairs: Seq<(Seq<char>, Seq<char>)>) -> Seq<char>
    decreases pairs.len(),
{
    if pairs.len() == 0 {
        s
    } else {
        subst_all(replace_spec(s, pattern_of(pairs[0].0), pairs[0].1), pairs.drop_first())
    }
}

/// Substitution under an optional map: an absent map substitutes
/// nothing.
pub open spec fn opt_subst(s: Seq<char>, pairs: Option<Seq<(Seq<char>, Seq<char>)>>) -> Seq<
    char,
> {
    match pairs {
        None => s,
        Some(p) => subst_all(s, p),
    }
}

/// Substituting with an empty map returns the text unchanged.
pub proof fn lemma_substitute_empty(s: Seq<char>)
    ensures
        subst_all(s, Seq::<(Seq<char>, Seq<char>)>::empty()) == s,
{
}

/// A key whose placeholder occurs nowhere in the text substitutes
/// nothing: the text comes back verbatim.
pub proof fn lemma_substitute_unused_key(s: Seq<char>, key: Seq<char>, val: Seq<char>)
    requires
        !occurs(s, pattern_of(key)),
    ensures
        replace_spec(s, pattern_of(key), val) == s,
{
    lemma_replace_absent(s, pattern_of(key), val);
}

/// A map none of whose placeholders occur in the text substitutes
/// nothing at all.
pub proof fn lemma_substitute_all_unused(s: Seq<char>, pairs: Seq<(Seq<char>, Seq<char>)>)
    requires
        forall|k: int| #![trigger pairs[k]] 0 <= k < pairs.len() ==> !occurs(
            s,
            pattern_of(pairs[k].0),
        ),
    ensures
        subst_all(s, pairs) == s,
    decreases pairs.len(),
{
    if pairs.len() > 0 {
        lemma_replace_absent(s, pattern_of(pairs[0].0), pairs[0].1);
        assert(forall|k: int|
            0 <= k < pairs.drop_first().len() ==> pairs.drop_first()[k] == pairs[k + 1]);
        lemma_substitute_all_unused(s, pairs.drop_first());
    }
}

/// Substituting one more pair at the end applies its replacement to the
/// already-substituted text.
pub proof fn lemma_subst_all_push(
    s: Seq<char>,
    pairs: Seq<(Seq<char>, Seq<char>)>,
    p: (Seq<char>, Seq<char>),
)
    ensures
        subst_all(s, pairs.push(p)) == replace_spec(subst_all(s, pairs), pattern_of(p.0), p.1),
    decreases pairs.len(),
{
    if pairs.len() == 0 {
        assert(pairs.push(p)[0] == p);
        assert(pairs.push(p).drop_first() =~= Seq::<(Seq<char>, Seq<char>)>::empty());
        assert(subst_all(s, pairs.push(p)) == subst_all(
            replace_spec(s, pattern_of(p.0), p.1),
            pairs.push(p).drop_first(),
        ));
        assert(subst_all(replace_spec(s, pattern_of(p.0), p.1), pairs.push(p).drop_first())
            == replace_spec(s, pattern_of(p.0), p.1));
        assert(subst_all(s, pairs) == s);
    } else {
        assert(pairs.push(p)[0] == pairs[0]);
        assert(pairs.push(p).drop_first() =~= pairs.drop_first().push(p));
        let rep = replace_spec(s, pattern_of(pairs[0].0), pairs[0].1);
        assert(subst_all(s, pairs.push(p)) == subst_all(rep, pairs.push(p).drop_first()));
        lemma_subst_all_push(rep, pairs.drop_first(), p);
        assert(subst_all(s, pairs) == subst_all(rep, pairs.drop_first()));
    }
}

/// Builds the character form of a key's placeholder.
fn placeholder_chars(key: &String) -> (r: Vec<char>)
    ensures
        r@ == pattern_of(key@),
{
    let mut out: Vec<char> = Vec::new();
    out.push('%');
    let kc = chars_of(key.as_str());
    push_all(&mut out, &kc);
    out.push('%');
    proof {
        assert(out@ =~= pattern_of(key@));
    }
    out
}

impl NotificationInformation {
    /// Substitutes the template data into the title and the body: for
    /// each pair in order, every occurrence of `%key%` becomes the
    /// pair's value. An absent map substitutes nothing.
    pub fn parse_with_template_data(&mut self, template_data: &Option<Vec<(String, String)>>)
        ensures
            final(self)@.title == opt_subst(old(self)@.title, template_data.deep_view()),
            final(self)@.body == opt_subst(old(self)@.body, template_data.deep_view()),
            final(self)@.params == old(self)@.params,
    {
        let pairs = match template_data {
            None => {
                return ;
            },
            Some(pairs) => pairs,
        };
        let ghost dv = pairs.deep_view();
        let mut i: usize = 0;
        proof {
            assert(dv.subrange(0, 0) =~= Seq::<(Seq<char>, Seq<char>)>::empty());
        }
        while i < pairs.len()
            invariant
                i <= pairs@.len(),
                dv == pairs.deep_view(),
                dv.len() == pairs@.len(),
                forall|k: int| #![trigger dv[k]] 0 <= k < pairs@.len() ==> dv[k] == (
                pairs@[k].0@,
                pairs@[k].1@,
                ),
                self.title@ == subst_all(old(self).title@, dv.subrange(0, i as int)),
                self.body@ == subst_all(old(self).body@, dv.subrange(0, i as int)),
                self.params == old(self).params,
            decreases pairs@.len() - i,
        {
            let pat = placeholder_chars(&pairs[i].0);
            let val = chars_of(pairs[i].1.as_str());
            let tc = chars_of(self.title.as_str());
            let new_title = replace_all(&tc, &pat, &val);
            self.title = string_from_chars(&new_title);
            let bc = chars_of(self.body.as_str());
            let new_body = replace_all(&bc, &pat, &val);
            self.body = string_from_chars(&new_body);
            i = i + 1;
            proof {
                assert(dv.subrange(0, i as int) =~= dv.subrange(0, i - 1).push(dv[i - 1]));
                lemma_subst_all_push(old(self).title@, dv.subrange(0, i - 1), dv[i - 1]);
                lemma_subst_all_push(old(self).body@, dv.subrange(0, i - 1), dv[i - 1]);
            }
        }
        proof {
            assert(dv.subrange(0, pairs@.len() as int) =~= dv);
        }
    }
}

impl Clone for NotificationInformation {
    fn clone(&self) -> (r: Self)
        ensures
            r@ == self@,
    {
        let params = match &self.params {
            None => None,
            Some(v) => {
                let mut out: Vec<String> = Vec::new();
                let mut i: usize = 0;
                while i < v.len()
                    invariant
                        i <= v@.len(),
                        out@ == v@.subrange(0, i as int),
                    decreases v@.len() - i,
                {
                    out.push(v[i].clone());
                    i = i + 1;
                    proof {
                        assert(out@ =~= v@.subrange(0, i as int));
                    }
                }
                proof {
                    assert(out@ =~= v@);
                }
                Some(out)
            },
        };
        let r = NotificationInformation {
            title: self.title.clone(),
            body: self.body.clone(),
            params,
        };
        r
    }
}

/// The catalog of notification templates: kind text to template, looked
/// up by first match.
#[derive(Debug)]
pub struct NotificationsRule(pub Vec<(String, NotificationInformation)>);

impl View for NotificationsRule {
    type V = Seq<(Seq<char>, InfoView)>;

    open spec fn view(&self) -> Seq<(Seq<char>, InfoView)> {
        self.0@.map_values(|p: (String, NotificationInformation)| (p.0@, p.1@))
    }
}

/// The first template stored under `key`, if any.
pub open spec fn catalog_lookup(entries: Seq<(Seq<char>, InfoView)>, key: Seq<char>) -> Option<
    InfoView,
>
    decreases entries.len(),
{
    if entries.len() == 0 {
        None
    } else if entries[0].0 == key {
        Some(entries[0].1)
    } else {
        catalog_lookup(entries.drop_first(), key)
    }
}

impl NotificationsRule {
    /// Looks a kind text up in the catalog; an absent kind yields
    /// nothing rather than an error.
    pub fn get_by_key(&self, key: &str) -> (r: Option<NotificationInformation>)
        ensures
            match r {
                Some(info) => catalog_lookup(self@, key@) == Some(info@),
                None => catalog_lookup(self@, key@) is None,
            },
    {
        let mut i: usize = 0;
        proof {
            assert(self@.skip(0) =~= self@);
        }
        while i < self.0.len()
            invariant
                i <= self.0@.len(),
                self@.len() == self.0@.len(),
                catalog_lookup(self@, key@) == catalog_lookup(self@.skip(i as int), key@),
            decreases self.0@.len() - i,
        {
            proof {
                assert(self@.skip(i as int)[0] == self@[i as int]);
                assert(self@.skip(i as int).drop_first() =~= self@.skip(i + 1));
            }
            if crate::text::str_eq(self.0[i].0.as_str(), key) {
                let info = self.0[i].1.clone();
                return Some(info);
            }
            i = i + 1;
        }
        proof {
            assert(self@.skip(i as int) =~= Seq::<(Seq<char>, InfoView)>::empty());
        }
        None
    }
}

} // verus!
