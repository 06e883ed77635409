//! The tags that the derive macros read from `tags(...)` and `filter(...)`
//! attributes: for each prefix, the tags it builds, each either a field of the
//! event or a closure over it. Code fragments are held as their source text.

use vstd::prelude::*;

verus! {

/// A closure, as its parameter list and its body.
#[derive(Debug)]
pub struct Closure {
    pub params: String,
    pub body: String,
}

impl Closure {
    pub fn duplicate(&self) -> (r: Closure)
        ensures
            r == *self,
    {
        Closure { params: self.params.clone(), body: self.body.clone() }
    }
}

/// How the value of one tag is taken from the event.
#[derive(Debug)]
pub enum Tag {
    /// A closure applied to the event.
    Closure(Closure),
    /// A field of the event, by name.
    Field(String),
}

impl Tag {
    pub fn duplicate(&self) -> (r: Tag)
        ensures
            r == *self,
    {
        match self {
            Tag::Closure(c) => Tag::Closure(c.duplicate()),
            Tag::Field(f) => Tag::Field(f.clone()),
        }
    }
}

/// What the parser recognised in one tag's source, trying a closure first,
/// then an identifier, then any expression.
#[derive(Debug)]
pub enum ParsedTag {
    Closure(Closure),
    Ident(String),
    Expr(String),
    Unparsable,
}

/// Failure to read a tag.
#[derive(Debug)]
pub enum TagError {
    UnexpectedFormat,
}

/// The body `{ body }.into()`: a tag closure's body converted into the tag value.
pub open spec fn into_body(body: Seq<char>) -> Seq<char> {
    "{ "@ + body + " }.into()"@
}

pub fn wrap_into(body: &String) -> (r: String)
    ensures
        r@ == into_body(body@),
{
    let mut r = String::from_str("{ ");
    r.append(body.as_str());
    r.append(" }.into()");
    r
}

/// The tag that a parsed source stands for: a closure keeps its parameters and
/// has its body converted with `.into()`; an identifier names a field; any other
/// expression becomes a closure over `this` whose body it is, converted the same
/// way; anything else is refused.
pub fn from_parsed(parsed: ParsedTag) -> (r: Result<Tag, TagError>)
    ensures
        match parsed {
            ParsedTag::Closure(c) => r matches Ok(Tag::Closure(d)) && d.params == c.params
                && d.body@ == into_body(c.body@),
            ParsedTag::Ident(name) => r == Ok::<Tag, TagError>(Tag::Field(name)),
            ParsedTag::Expr(e) => r matches Ok(Tag::Closure(d)) && d.params@ == "this"@
                && d.body@ == into_body(e@),
            ParsedTag::Unparsable => r matches Err(TagError::UnexpectedFormat),
        },
{
    match parsed {
        ParsedTag::Closure(c) => {
            let body = wrap_into(&c.body);
            Ok(Tag::Closure(Closure { params: c.params, body }))
        },
        ParsedTag::Ident(name) => Ok(Tag::Field(name)),
        ParsedTag::Expr(e) => {
            let body = wrap_into(&e);
            Ok(Tag::Closure(Closure { params: String::from_str("this"), body }))
        },
        ParsedTag::Unparsable => Err(TagError::UnexpectedFormat),
    }
}

/// The tags declared under one prefix.
#[derive(Debug)]
pub struct TagGroup {
    pub prefix: String,
    pub tags: Vec<Tag>,
}

/// The tags of an attribute, by prefix; no prefix occurs twice.
#[derive(Debug)]
pub struct TagMap {
    groups: Vec<TagGroup>,
}

/// Whether no two of `groups` share a prefix.
pub open spec fn distinct_prefixes(groups: Seq<TagGroup>) -> bool {
    forall|i: int, j: int| 0 <= i < j < groups.len() ==> groups[i].prefix@ != groups[j].prefix@
}

impl TagMap {
    #[verifier::type_invariant]
    spec fn prefixes_distinct(&self) -> bool {
        distinct_prefixes(self.groups@)
    }

    /// The groups, in the order in which they were declared.
    pub closed spec fn groups(&self) -> Seq<TagGroup> {
        self.groups@
    }

    pub fn new() -> (r: TagMap)
        ensures
            r.groups() == Seq::<TagGroup>::empty(),
    {
        TagMap { groups: Vec::new() }
    }

    pub fn groups_of(&self) -> (r: &Vec<TagGroup>)
        ensures
            r@ == self.groups(),
            distinct_prefixes(r@),
    {
        proof {
            use_type_invariant(self);
        }
        &self.groups
    }

    /// Whether some group has `prefix`.
    pub fn contains(&self, prefix: &String) -> (r: bool)
        ensures
            r == exists|i: int| 0 <= i < self.groups().len() && #[trigger] self.groups()[i].prefix@ == prefix@,
    {
        let mut i: usize = 0;
        while i < self.groups.len()
            invariant
                i <= self.groups@.len(),
                forall|j: int| 0 <= j < i ==> self.groups@[j].prefix@ != prefix@,
            decreases self.groups@.len() - i,
        {
            if self.groups[i].prefix == *prefix {
                assert(self.groups()[i as int].prefix@ == prefix@);
                return true;
            }
            i = i + 1;
        }
        false
    }

    /// Adds the tags under `prefix`, unless the prefix is already declared:
    /// then nothing changes and the result is false.
    pub fn insert(&mut self, prefix: String, tags: Vec<Tag>) -> (r: bool)
        ensures
            r == !exists|i: int| 0 <= i < old(self).groups().len() && #[trigger] old(self).groups()[i].prefix@ == prefix@,
            r ==> final(self).groups() == old(self).groups().push(TagGroup { prefix, tags }),
            !r ==> final(self).groups() == old(self).groups(),
    {
        if self.contains(&prefix) {
            return false;
        }
        proof {
            use_type_invariant(&*self);
        }
        let mut old_map = TagMap::new();
        std::mem::swap(self, &mut old_map);
        let TagMap { mut groups } = old_map;
        groups.push(TagGroup { prefix, tags });
        *self = TagMap { groups };
        true
    }
}

/// One tag to build, with the type it is built for and its prefix.
#[derive(Debug)]
pub struct TagInitialize {
    pub ident: String,
    pub prefix: String,
    pub tag: Tag,
}

/// The tags to build for the type `ident` from one group, in order.
pub open spec fn group_inits(ident: String, group: TagGroup) -> Seq<TagInitialize> {
    group.tags@.map_values(|t: Tag| TagInitialize { ident, prefix: group.prefix, tag: t })
}

/// The tags to build for the type `ident` from `groups`: each group's tags in
/// order, group after group.
pub open spec fn fold_groups(ident: String, groups: Seq<TagGroup>) -> Seq<TagInitialize>
    decreases groups.len(),
{
    if groups.len() == 0 {
        Seq::empty()
    } else {
        fold_groups(ident, groups.drop_last()) + group_inits(ident, groups.last())
    }
}

/// How many tags `groups` declare.
pub open spec fn declared_tags(groups: Seq<TagGroup>) -> nat
    decreases groups.len(),
{
    if groups.len() == 0 {
        0
    } else {
        declared_tags(groups.drop_last()) + groups.last().tags@.len()
    }
}

/// Every declared tag is built, once: there are as many tags to build as the
/// groups declare.
pub proof fn law_fold_builds_every_declared_tag(ident: String, groups: Seq<TagGroup>)
    ensures
        fold_groups(ident, groups).len() == declared_tags(groups),
    decreases groups.len(),
{
    if groups.len() > 0 {
        law_fold_builds_every_declared_tag(ident, groups.drop_last());
    }
}

/// The tags built from one group are its tags, in order, each under the
/// group's prefix and for the type `ident`.
pub proof fn law_group_builds_its_tags_under_its_prefix(ident: String, group: TagGroup)
    ensures
        group_inits(ident, group).len() == group.tags@.len(),
        forall|j: int|
            0 <= j < group.tags@.len() ==> #[trigger] group_inits(ident, group)[j] == (TagInitialize {
                ident,
                prefix: group.prefix,
                tag: group.tags@[j],
            }),
{
}

/// The tag declared at position `j` of the group at `k` is built at position
/// `j` after every tag declared by the groups before it: for the type `ident`,
/// under that group's prefix, and as declared.
pub proof fn law_fold_places_each_declared_tag(ident: String, groups: Seq<TagGroup>, k: int, j: int)
    requires
        0 <= k < groups.len(),
        0 <= j < groups[k].tags@.len(),
    ensures
        declared_tags(groups.take(k)) + j < fold_groups(ident, groups).len(),
        fold_groups(ident, groups)[declared_tags(groups.take(k)) + j] == (TagInitialize {
            ident,
            prefix: groups[k].prefix,
            tag: groups[k].tags@[j],
        }),
    decreases groups.len(),
{
    let init = groups.drop_last();
    law_fold_builds_every_declared_tag(ident, groups);
    law_fold_builds_every_declared_tag(ident, init);
    law_group_builds_its_tags_under_its_prefix(ident, groups.last());
    if k == groups.len() - 1 {
        assert(groups.take(k) =~= init);
    } else {
        law_fold_places_each_declared_tag(ident, init, k, j);
        assert(init.take(k) =~= groups.take(k));
    }
}

/// The tags to build for `ident` from an optional attribute: none without one.
pub fn fold(ident: &String, tags: Option<&TagMap>) -> (r: Vec<TagInitialize>)
    ensures
        r@ == match tags {
            None => Seq::<TagInitialize>::empty(),
            Some(m) => fold_groups(*ident, m.groups()),
        },
{
    let mut acc: Vec<TagInitialize> = Vec::new();
    match tags {
        None => acc,
        Some(map) => {
            let groups = map.groups_of();
            let mut i: usize = 0;
            while i < groups.len()
                invariant
                    i <= groups@.len(),
                    acc@ == fold_groups(*ident, groups@.take(i as int)),
                decreases groups@.len() - i,
            {
                let group = &groups[i];
                let ghost before = acc@;
                let mut k: usize = 0;
                while k < group.tags.len()
                    invariant
                        k <= group.tags@.len(),
                        acc@ == before + group_inits(*ident, *group).take(k as int),
                    decreases group.tags@.len() - k,
                {
                    let init = TagInitialize {
                        ident: ident.clone(),
                        prefix: group.prefix.clone(),
                        tag: group.tags[k].duplicate(),
                    };
                    acc.push(init);
                    assert(group_inits(*ident, *group).take(k + 1) =~= group_inits(*ident, *group).take(
                        k as int,
                    ).push(init));
                    k = k + 1;
                }
                assert(group_inits(*ident, *group).take(k as int) =~= group_inits(*ident, *group));
                assert(groups@.take(i + 1).drop_last() =~= groups@.take(i as int));
                i = i + 1;
            }
            assert(groups@.take(i as int) =~= groups@);
            acc
        },
    }
}

} // verus!
