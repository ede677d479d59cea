//! Hyperlinks and the rules that find them in plain text.

use crate::line::append_text;
use crate::text::chars_of;
use crate::text::copy_text;
use crate::views::lemma_views_push;
use crate::views::views;
use regex::Regex;
use vstd::prelude::*;

verus! {

/// What a hyperlink is.
pub struct HyperlinkView {
    pub uri: Seq<char>,
    pub id: Option<Seq<char>>,
    pub implicit: bool,
}

/// The target of a link: its address, the identifier that joins the parts of one link, and
/// whether a rule made it from plain text.
#[derive(Debug)]
pub struct Hyperlink {
    uri: Vec<char>,
    id: Option<Vec<char>>,
    implicit: bool,
}

impl View for Hyperlink {
    type V = HyperlinkView;

    closed spec fn view(&self) -> HyperlinkView {
        HyperlinkView {
            uri: self.uri@,
            id: match self.id {
                Some(id) => Some(id@),
                None => None,
            },
            implicit: self.implicit,
        }
    }
}

impl HyperlinkView {
    /// The link that a rule makes to an address.
    pub open spec fn implicit(uri: Seq<char>) -> HyperlinkView {
        HyperlinkView { uri, id: None, implicit: true }
    }
}

impl Hyperlink {
    /// A link with the given address and identifier, as an escape sequence sets it.
    pub fn new(uri: Vec<char>, id: Option<Vec<char>>) -> (link: Hyperlink)
        ensures
            link@ == (HyperlinkView {
                uri: uri@,
                id: match id {
                    Some(i) => Some(i@),
                    None => None,
                },
                implicit: false,
            }),
    {
        Hyperlink { uri, id, implicit: false }
    }

    /// A link to the given address, as a rule makes it.
    pub fn new_implicit(uri: Vec<char>) -> (link: Hyperlink)
        ensures
            link@ == HyperlinkView::implicit(uri@),
    {
        Hyperlink { uri, id: None, implicit: true }
    }

    /// The address of the link.
    pub fn uri(&self) -> (uri: &Vec<char>)
        ensures
            uri@ == self@.uri,
    {
        &self.uri
    }

    /// The identifier that joins the parts of one link, if it has one.
    pub fn id(&self) -> (id: &Option<Vec<char>>)
        ensures
            id is Some == self@.id is Some,
            id matches Some(i) ==> i@ == self@.id.unwrap(),
    {
        &self.id
    }

    /// Whether a rule made the link from plain text.
    pub fn is_implicit(&self) -> (b: bool)
        ensures
            b == self@.implicit,
    {
        self.implicit
    }

    /// A copy of this link.
    pub fn duplicate(&self) -> (link: Hyperlink)
        ensures
            link@ == self@,
    {
        Hyperlink {
            uri: copy_text(&self.uri),
            id: match &self.id {
                Some(id) => Some(copy_text(id)),
                None => None,
            },
            implicit: self.implicit,
        }
    }
}

/// What a rule is.
pub struct RuleView {
    pub pattern: Seq<char>,
    pub format: Seq<char>,
}

/// A rule that finds links in plain text: a regular expression, and the address made of what
/// matched. In the address `$0` stands for the whole match and `$1` to `$9` for the groups
/// of the expression.
#[derive(Debug)]
pub struct Rule {
    pattern: Vec<char>,
    format: Vec<char>,
}

impl View for Rule {
    type V = RuleView;

    closed spec fn view(&self) -> RuleView {
        RuleView { pattern: self.pattern@, format: self.format@ }
    }
}

/// What a match of a rule is: the bytes of the text it spans, and the text of each group of
/// the expression, the whole match first; a group that did not take part has no text.
pub struct HitView {
    pub start: usize,
    pub end: usize,
    pub captures: Seq<Option<Seq<char>>>,
}

/// A match of a rule.
#[derive(Debug)]
pub struct Hit {
    pub start: usize,
    pub end: usize,
    pub captures: Vec<Option<Vec<char>>>,
}

/// What the groups of a match hold.
pub open spec fn group_views(groups: Seq<Option<Vec<char>>>) -> Seq<Option<Seq<char>>> {
    Seq::new(
        groups.len(),
        |i: int|
            match groups[i] {
                Some(text) => Some(text@),
                None => None,
            },
    )
}

impl View for Hit {
    type V = HitView;

    open spec fn view(&self) -> HitView {
        HitView { start: self.start, end: self.end, captures: group_views(self.captures@) }
    }
}

/// The matches that `Regex::captures_iter` finds for a regular expression in a text, in
/// order; none where `Regex::new` refuses the expression.
pub uninterp spec fn regex_hits(pattern: Seq<char>, text: Seq<char>) -> Seq<HitView>;

/// `Regex::new` on the pattern, then `Regex::captures_iter` on the text: the successive
/// matches that do not overlap, each with the byte offsets of the whole match and the text
/// of every group that took part. An expression that does not compile has no matches. What
/// is found depends on the pattern and the text alone.
#[verifier::external_body]
pub(crate) fn find_hits(pattern: &Vec<char>, text: &Vec<char>) -> (hits: Vec<Hit>)
    ensures
        views(hits@) == regex_hits(pattern@, text@),
{
    let text: String = text.iter().collect();
    let pattern: String = pattern.iter().collect();
    match Regex::new(&pattern) {
        Ok(re) => re.captures_iter(&text).map(|c| Hit {
            start: c.get(0).map_or(0, |m| m.start()),
            end: c.get(0).map_or(0, |m| m.end()),
            captures: c.iter().map(|m| m.map(|m| m.as_str().chars().collect())).collect(),
        }).collect(),
        Err(_) => Vec::new(),
    }
}

/// The group that a character of an address names after a dollar sign, where the match has
/// such a group.
pub open spec fn group_named(c: char, captures: Seq<Option<Seq<char>>>) -> Option<int> {
    if '0' <= c <= '9' && (c as u32 - 0x30) < captures.len() {
        Some((c as u32 - 0x30) as int)
    } else {
        None
    }
}

/// The text of a group, empty for a group that did not take part in the match.
pub open spec fn group_text(group: Option<Seq<char>>) -> Seq<char> {
    match group {
        Some(text) => text,
        None => Seq::empty(),
    }
}

/// The address of a match: the format from index `from` on, with each `$` and digit that
/// names a group of the match replaced by the text of the group.
pub open spec fn expanded(format: Seq<char>, captures: Seq<Option<Seq<char>>>, from: int) -> Seq<
    char,
>
    decreases format.len() - from,
{
    if from < 0 || from >= format.len() {
        Seq::empty()
    } else if format[from] == '$' && from + 1 < format.len() && group_named(
        format[from + 1],
        captures,
    ) is Some {
        group_text(captures[group_named(format[from + 1], captures).unwrap()]) + expanded(
            format,
            captures,
            from + 2,
        )
    } else {
        seq![format[from]] + expanded(format, captures, from + 1)
    }
}

/// What a link found in a text is: the bytes of the text it spans, and its address.
pub struct FoundLinkView {
    pub start: usize,
    pub end: usize,
    pub uri: Seq<char>,
}

/// A link found in a text.
#[derive(Debug)]
pub struct FoundLink {
    pub start: usize,
    pub end: usize,
    pub uri: Vec<char>,
}

impl View for FoundLink {
    type V = FoundLinkView;

    open spec fn view(&self) -> FoundLinkView {
        FoundLinkView { start: self.start, end: self.end, uri: self.uri@ }
    }
}

impl RuleView {
    /// The links that the first `upto` matches of the rule make.
    pub open spec fn links(self, hits: Seq<HitView>, upto: int) -> Seq<FoundLinkView>
        decreases upto,
    {
        if upto <= 0 {
            Seq::empty()
        } else {
            self.links(hits, upto - 1).push(
                FoundLinkView {
                    start: hits[upto - 1].start,
                    end: hits[upto - 1].end,
                    uri: expanded(self.format, hits[upto - 1].captures, 0),
                },
            )
        }
    }

    /// The links that the rule finds in a text.
    pub open spec fn found(self, text: Seq<char>) -> Seq<FoundLinkView> {
        self.links(regex_hits(self.pattern, text), regex_hits(self.pattern, text).len() as int)
    }
}

/// The links that the first `upto` rules find in a text, rule by rule.
pub open spec fn found_links(rules: Seq<RuleView>, text: Seq<char>, upto: int) -> Seq<FoundLinkView>
    decreases upto,
{
    if upto <= 0 {
        Seq::empty()
    } else {
        found_links(rules, text, upto - 1) + rules[upto - 1].found(text)
    }
}

impl Rule {
    /// A rule made of a regular expression and the format of the address.
    pub fn new(pattern: &str, format: &str) -> (rule: Rule)
        ensures
            rule@ == (RuleView { pattern: pattern@, format: format@ }),
    {
        Rule { pattern: chars_of(pattern), format: chars_of(format) }
    }

    /// The address of a match of the rule.
    pub fn expand(&self, captures: &Vec<Option<Vec<char>>>) -> (uri: Vec<char>)
        ensures
            uri@ == expanded(self@.format, group_views(captures@), 0),
    {
        let mut uri: Vec<char> = Vec::new();
        let format = &self.format;
        let mut i: usize = 0;
        while i < format.len()
            invariant
                format@ == self@.format,
                uri@ + expanded(format@, group_views(captures@), i as int) == expanded(
                    format@,
                    group_views(captures@),
                    0,
                ),
            decreases format.len() - i,
        {
            let ghost before = uri@;
            let c = format[i];
            if c == '$' && i + 1 < format.len() {
                let d = format[i + 1];
                if '0' <= d && d <= '9' && ((d as u32 - 0x30) as usize) < captures.len() {
                    let group = (d as u32 - 0x30) as usize;
                    match &captures[group] {
                        Some(text) => {
                            append_text(&mut uri, text);
                        },
                        None => {
                            assert(uri@ =~= before + Seq::<char>::empty());
                        },
                    }
                    proof {
                        let rest = expanded(format@, group_views(captures@), i + 2);
                        let taken = group_text(group_views(captures@)[group as int]);
                        assert(uri@ == before + taken);
                        assert(uri@ + rest =~= before + (taken + rest));
                    }
                    i = i + 2;
                    continue ;
                }
            }
            uri.push(c);
            proof {
                let rest = expanded(format@, group_views(captures@), i + 1);
                assert(uri@ + rest =~= before + (seq![c] + rest));
            }
            i = i + 1;
        }
        proof {
            assert(uri@ + Seq::<char>::empty() =~= uri@);
        }
        uri
    }

    /// The links that the rule finds in a text.
    pub fn find(&self, text: &Vec<char>) -> (found: Vec<FoundLink>)
        ensures
            views(found@) == self@.found(text@),
    {
        let hits = find_hits(&self.pattern, text);
        let mut found: Vec<FoundLink> = Vec::new();
        let mut i: usize = 0;
        proof {
            assert(views(found@) =~= self@.links(views(hits@), 0));
        }
        while i < hits.len()
            invariant
                i <= hits.len(),
                views(hits@) == regex_hits(self@.pattern, text@),
                views(found@) == self@.links(views(hits@), i as int),
            decreases hits.len() - i,
        {
            let hit = &hits[i];
            assert(views(hits@)[i as int] == hit@);
            let link = FoundLink { start: hit.start, end: hit.end, uri: self.expand(&hit.captures) };
            proof {
                lemma_views_push(found@, link);
            }
            found.push(link);
            i = i + 1;
        }
        found
    }
}

/// The links that rules find in a text, rule by rule.
pub fn find_links(rules: &Vec<Rule>, text: &Vec<char>) -> (found: Vec<FoundLink>)
    ensures
        views(found@) == found_links(views(rules@), text@, rules@.len() as int),
{
    let mut found: Vec<FoundLink> = Vec::new();
    let mut i: usize = 0;
    proof {
        assert(views(found@) =~= found_links(views(rules@), text@, 0));
    }
    while i < rules.len()
        invariant
            i <= rules.len(),
            views(found@) == found_links(views(rules@), text@, i as int),
        decreases rules.len() - i,
    {
        assert(views(rules@)[i as int] == rules@[i as int]@);
        let mut more = rules[i].find(text);
        let ghost before = views(found@);
        let ghost all = views(more@);
        let total = more.len();
        let mut done: usize = 0;
        proof {
            assert(all.subrange(0, all.len() as int) =~= all);
            assert(before + all.subrange(0, 0) =~= before);
        }
        while more.len() > 0
            invariant
                done + more@.len() == all.len(),
                all.len() == total,
                views(more@) == all.subrange(done as int, all.len() as int),
                views(found@) == before + all.subrange(0, done as int),
            decreases more.len(),
        {
            let ghost rest = more@;
            proof {
                crate::views::lemma_views_remove(rest, 0);
                assert(views(rest)[0] == all[done as int]);
                assert(views(rest).remove(0) =~= all.subrange(done + 1, all.len() as int));
            }
            let item = more.remove(0);
            proof {
                lemma_views_push(found@, item);
            }
            found.push(item);
            assert(views(found@) =~= before + all.subrange(0, done + 1));
            done = done + 1;
        }
        assert(all.subrange(0, all.len() as int) =~= all);
        i = i + 1;
    }
    found
}

} // verus!
