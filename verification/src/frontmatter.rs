//! The front matter of a document: the properties that stand at its head.

use crate::ast::{Node, NodeValue, NodeValueView, NodeView};
use crate::bindings::{
    distinct_keys, ends_with, starts_with, strip_prefix, strip_suffix, trim, trimmed, yaml_entries,
    yaml_text,
};
use vstd::prelude::*;
use vstd::string::StringExecFns;

verus! {

/// Why front matter could not be read.
#[derive(Debug)]
pub enum FrontmatterErr {
    /// The text does not stand between two lines of three hyphens.
    InvalidFrontmatter,
    /// What stands between the hyphens is no map of properties.
    Parsing(serde_yaml::Error),
}

/// The properties of a document, each under its name.
#[derive(Debug)]
pub struct Frontmatter {
    map: Vec<(String, serde_yaml::Value)>,
}

/// Whether one of `entries` has the key `key`.
pub open spec fn has_key(entries: Seq<(String, serde_yaml::Value)>, key: Seq<char>) -> bool {
    exists|i: int| 0 <= i < entries.len() && (#[trigger] entries[i]).0@ == key
}

/// The place among `entries` of one that has the key `key`.
pub open spec fn key_index(entries: Seq<(String, serde_yaml::Value)>, key: Seq<char>) -> int {
    choose|i: int| 0 <= i < entries.len() && (#[trigger] entries[i]).0@ == key
}

/// The map that `entries` stand for: each key with its value.
pub open spec fn as_map(entries: Seq<(String, serde_yaml::Value)>) -> Map<
    Seq<char>,
    serde_yaml::Value,
> {
    Map::new(
        |key: Seq<char>| has_key(entries, key),
        |key: Seq<char>| entries[key_index(entries, key)].1,
    )
}

/// What stands between the two lines of three hyphens that frame `text`,
/// without the white space around it; nothing where `text`, white space
/// aside, does not start and end with three hyphens of their own.
pub open spec fn frontmatter_body(text: Seq<char>) -> Option<Seq<char>> {
    let inner = trimmed(text);
    if starts_with(inner, "---"@) {
        let rest = inner.skip("---"@.len() as int);
        if ends_with(rest, "---"@) {
            Some(trimmed(rest.take(rest.len() - "---"@.len())))
        } else {
            None
        }
    } else {
        None
    }
}

/// Takes from `text` what stands between the two lines of three hyphens that
/// frame it.
pub fn unframed(text: &str) -> (r: Option<&str>)
    ensures
        r matches Some(body) ==> frontmatter_body(text@) == Some(body@),
        r is None ==> frontmatter_body(text@) is None,
{
    let inner = trim(text);
    match strip_prefix(inner, "---") {
        Some(rest) => {
            assert(rest@ =~= inner@.skip("---"@.len() as int));
            match strip_suffix(rest, "---") {
                Some(body) => {
                    assert(body@ =~= rest@.take(rest@.len() - "---"@.len()));
                    Some(trim(body))
                },
                None => None,
            }
        },
        None => None,
    }
}

/// The text of the front matter that holds the properties `yaml`: the
/// properties between two lines of three hyphens, and an empty line.
pub open spec fn framed_text(yaml: Seq<char>) -> Seq<char> {
    "---\n"@ + yaml + "---\n\n"@
}

/// Writes the text of the front matter that holds the properties `yaml`.
pub fn framed(yaml: &str) -> (r: String)
    ensures
        r@ == framed_text(yaml@),
{
    let mut out = String::from_str("---\n");
    out.append(yaml);
    out.append("---\n\n");
    out
}

/// The text of the front matter of the document: the text of `node` where it
/// is front matter, otherwise what its first child gives in the same way.
pub open spec fn frontmatter_text(node: NodeView) -> Option<Seq<char>>
    decreases node,
{
    match node.value {
        NodeValueView::FrontMatter(text) => Some(text),
        _ => if node.children.len() > 0 {
            frontmatter_text(node.children[0])
        } else {
            None
        },
    }
}

/// Finds the front matter of the document: `node` itself, or the first
/// child of `node`, or the first child of that child, and so on.
pub fn find_frontmatter(node: &Node) -> (r: Option<&String>)
    ensures
        r matches Some(text) ==> frontmatter_text(node@) == Some(text@),
        r is None ==> frontmatter_text(node@) is None,
    decreases node,
{
    match &node.value {
        NodeValue::FrontMatter(text) => Some(text),
        _ => if node.children.len() > 0 {
            find_frontmatter(&node.children[0])
        } else {
            None
        },
    }
}

/// `node` with `text` as the text of every front matter in it and below it.
pub open spec fn with_frontmatter(node: NodeView, text: Seq<char>) -> NodeView
    decreases node,
{
    match node.value {
        NodeValueView::FrontMatter(_) => NodeView {
            value: NodeValueView::FrontMatter(text),
            children: node.children,
        },
        _ => NodeView {
            value: node.value,
            children: Seq::new(
                node.children.len(),
                |i: int|
                    if 0 <= i < node.children.len() {
                        with_frontmatter(node.children[i], text)
                    } else {
                        arbitrary()
                    },
            ),
        },
    }
}

/// Makes `text` the text of every front matter in `node` and below it.
pub fn set_frontmatter(node: &mut Node, text: &str)
    ensures
        final(node)@ == with_frontmatter(old(node)@, text@),
    decreases *old(node),
{
    let ghost start = *node;
    if let NodeValue::FrontMatter(held) = &mut node.value {
        *held = String::from_str(text);
        return ;
    }
    let mut i: usize = 0;
    while i < node.children.len()
        invariant
            i <= node.children.len(),
            start == *old(node),
            node.value == start.value,
            !(start.value is FrontMatter),
            node.children.len() == start.children.len(),
            forall|k: int|
                0 <= k < i ==> (#[trigger] node.children[k])@ == with_frontmatter(
                    start.children[k]@,
                    text@,
                ),
            forall|k: int|
                i <= k < node.children.len() ==> #[trigger] node.children[k] == start.children[k],
        decreases node.children.len() - i,
    {
        set_frontmatter(&mut node.children[i], text);
        i += 1;
    }
    proof {
        let want = with_frontmatter(start@, text@);
        assert forall|k: int| 0 <= k < node@.children.len() implies node@.children[k]
            == want.children[k] by {
        }
        assert(node@.children =~= want.children);
    }
}

/// Whether one of the children of `node` is front matter.
pub open spec fn has_frontmatter(node: NodeView) -> bool {
    exists|i: int| 0 <= i < node.children.len() && (#[trigger] node.children[i]).value is FrontMatter
}

/// Gives the document front matter where it has none: where no child of
/// `node` is front matter, front matter with no property becomes the first
/// child. Tells whether it did.
pub fn ensure_frontmatter(node: &mut Node) -> (added: bool)
    ensures
        added == !has_frontmatter(old(node)@),
        !added ==> *final(node) == *old(node),
        added ==> final(node)@ == (NodeView {
            value: old(node)@.value,
            children: seq![
                NodeView {
                    value: NodeValueView::FrontMatter("---\n\n---"@),
                    children: Seq::empty(),
                },
            ] + old(node)@.children,
        }),
{
    let ghost start = *node;
    let mut i: usize = 0;
    while i < node.children.len()
        invariant
            i <= node.children.len(),
            *node == start,
            forall|k: int| 0 <= k < i ==> !((#[trigger] start@.children[k]).value is FrontMatter),
        decreases node.children.len() - i,
    {
        assert(start@.children[i as int] == start.children[i as int]@);
        if let NodeValue::FrontMatter(_) = &node.children[i].value {
            return false;
        }
        i += 1;
    }
    let blank = Node {
        value: NodeValue::FrontMatter(String::from_str("---\n\n---")),
        children: Vec::new(),
    };
    assert(blank@.children =~= Seq::<NodeView>::empty());
    node.children.insert(0, blank);
    proof {
        let want = seq![blank@] + start@.children;
        assert forall|k: int| 0 <= k < node@.children.len() implies node@.children[k] == want[k] by {
        }
        assert(node@.children =~= want);
    }
    true
}

impl View for Frontmatter {
    type V = Map<Seq<char>, serde_yaml::Value>;

    closed spec fn view(&self) -> Map<Seq<char>, serde_yaml::Value> {
        as_map(self.map@)
    }
}

impl Frontmatter {
    /// Whether no property is held twice. Every front matter that this
    /// module hands out is well formed.
    pub closed spec fn wf(&self) -> bool {
        distinct_keys(self.map@)
    }

    /// The front matter with no property.
    pub fn new() -> (r: Self)
        ensures
            r.wf(),
            r@ == Map::<Seq<char>, serde_yaml::Value>::empty(),
    {
        let r = Frontmatter { map: Vec::new() };
        r
    }

    /// The front matter with the properties `entries`, where no two of them
    /// have the same name; nothing where two have.
    pub fn from_entries(entries: Vec<(String, serde_yaml::Value)>) -> (r: Option<Self>)
        ensures
            r matches Some(f) ==> distinct_keys(entries@) && f.wf() && f@ == as_map(entries@),
            r is None ==> !distinct_keys(entries@),
    {
        let mut j: usize = 0;
        while j < entries.len()
            invariant
                j <= entries.len(),
                forall|a: int, b: int|
                    0 <= a < b < j ==> (#[trigger] entries[a]).0@ != (#[trigger] entries[b]).0@,
            decreases entries.len() - j,
        {
            let mut i: usize = 0;
            while i < j
                invariant
                    i <= j < entries.len(),
                    forall|a: int| 0 <= a < i ==> (#[trigger] entries[a]).0@ != entries[j as int].0@,
                decreases j - i,
            {
                if entries[i].0 == entries[j].0 {
                    return None;
                }
                i += 1;
            }
            j += 1;
        }
        Some(Frontmatter { map: entries })
    }

    /// The properties, each with its name, in the order in which they are
    /// held.
    pub fn entries(&self) -> (r: &Vec<(String, serde_yaml::Value)>)
        ensures
            self.wf() ==> distinct_keys(r@),
            as_map(r@) == self@,
    {
        &self.map
    }

    /// The place of the property `key`, where it is held.
    fn position(&self, key: &String) -> (r: Option<usize>)
        ensures
            r matches Some(i) ==> i < self.map@.len() && self.map@[i as int].0@ == key@,
            r is None ==> !has_key(self.map@, key@),
    {
        let mut i: usize = 0;
        while i < self.map.len()
            invariant
                i <= self.map.len(),
                forall|k: int| 0 <= k < i ==> (#[trigger] self.map@[k]).0@ != key@,
            decreases self.map.len() - i,
        {
            if self.map[i].0 == *key {
                return Some(i);
            }
            i += 1;
        }
        None
    }

    /// Reads front matter: the text between two lines of three hyphens is
    /// read as a map of properties. The result is the properties with their
    /// names, no name twice.
    pub fn parse(string: &str) -> (r: Result<Vec<(String, serde_yaml::Value)>, FrontmatterErr>)
        ensures
            frontmatter_body(string@) is None ==> r matches Err(
                FrontmatterErr::InvalidFrontmatter,
            ),
            frontmatter_body(string@) is Some ==> (r matches Ok(entries) && distinct_keys(
                entries@,
            )) || r matches Err(FrontmatterErr::Parsing(_)),
    {
        match unframed(string) {
            Some(body) => Frontmatter::read(yaml_entries(body)),
            None => Err(FrontmatterErr::InvalidFrontmatter),
        }
    }

    /// What reading front matter gives, once the text between the hyphens
    /// was read as a map: the entries of the map, or the failure to read it.
    pub fn read(outcome: Result<Vec<(String, serde_yaml::Value)>, serde_yaml::Error>) -> (r: Result<
        Vec<(String, serde_yaml::Value)>,
        FrontmatterErr,
    >)
        ensures
            r == match outcome {
                Ok(entries) => Ok::<Vec<(String, serde_yaml::Value)>, FrontmatterErr>(entries),
                Err(error) => Err(FrontmatterErr::Parsing(error)),
            },
    {
        match outcome {
            Ok(entries) => Ok(entries),
            Err(error) => Err(FrontmatterErr::Parsing(error)),
        }
    }

    /// Sets the property `key` to `value`, whether or not it was there.
    pub fn insert(&mut self, key: String, value: serde_yaml::Value)
        requires
            old(self).wf(),
        ensures
            final(self).wf(),
            final(self)@ == old(self)@.insert(key@, value),
    {
        let ghost before = self.map@;
        match self.position(&key) {
            Some(i) => {
                self.map[i] = (key, value);
                proof {
                    let after = self.map@;
                    assert forall|k: Seq<char>| has_key(after, k) == has_key(before, k) || k
                        == key@ by {
                        if has_key(before, k) {
                            let b = key_index(before, k);
                            assert(after[b].0@ == k);
                        }
                    }
                }
            },
            None => {
                self.map.push((key, value));
                proof {
                    let after = self.map@;
                    assert(after[before.len() as int].0@ == key@);
                    assert forall|k: Seq<char>| has_key(after, k) == (has_key(before, k) || k
                        == key@) by {
                        if has_key(before, k) {
                            let b = key_index(before, k);
                            assert(after[b].0@ == k);
                        }
                    }
                    assert forall|k: Seq<char>| has_key(before, k) && k != key@ implies as_map(
                        after,
                    )[k] == as_map(before)[k] by {
                    }
                }
            },
        }
    }

    /// Takes the property `key` out, and hands back the value it had.
    pub fn remove(&mut self, key: String) -> (r: Option<serde_yaml::Value>)
        requires
            old(self).wf(),
        ensures
            final(self).wf(),
            final(self)@ == old(self)@.remove(key@),
            r == if old(self)@.contains_key(key@) {
                Some(old(self)@[key@])
            } else {
                None
            },
    {
        let ghost before = self.map@;
        match self.position(&key) {
            Some(i) => {
                let gone = self.map.remove(i);
                proof {
                    let after = self.map@;
                    assert forall|k: Seq<char>| has_key(after, k) == (has_key(before, k) && k
                        != key@) by {
                        if has_key(before, k) && k != key@ {
                            let b = key_index(before, k);
                            if b < i {
                                assert(after[b].0@ == k);
                            } else {
                                assert(after[b - 1].0@ == k);
                            }
                        }
                    }
                    assert forall|k: Seq<char>| has_key(before, k) && k != key@ implies as_map(
                        after,
                    )[k] == as_map(before)[k] by {
                    }
                }
                Some(gone.1)
            },
            None => None,
        }
    }

    /// The value of the property `key`, where there is one.
    pub fn get(&self, key: String) -> (r: Option<&serde_yaml::Value>)
        requires
            self.wf(),
        ensures
            r == if self@.contains_key(key@) {
                Some(&self@[key@])
            } else {
                None
            },
    {
        match self.position(&key) {
            Some(i) => Some(&self.map[i].1),
            None => None,
        }
    }

    /// The front matter of the document at `value`, read; the front matter
    /// with no property where the document has none.
    pub fn try_from(value: &Node) -> (r: Result<Frontmatter, FrontmatterErr>)
        ensures
            match frontmatter_text(value@) {
                None => r matches Ok(f) && f@ == Map::<Seq<char>, serde_yaml::Value>::empty(),
                Some(text) => match frontmatter_body(text) {
                    None => r matches Err(FrontmatterErr::InvalidFrontmatter),
                    Some(_) => r is Ok || r matches Err(FrontmatterErr::Parsing(_)),
                },
            },
            r matches Ok(f) ==> f.wf(),
    {
        match find_frontmatter(value) {
            Some(text) => match Frontmatter::parse(text.as_str()) {
                Ok(entries) => Ok(Frontmatter { map: entries }),
                Err(e) => Err(e),
            },
            None => Ok(Frontmatter::new()),
        }
    }

    /// The front matter as text: the properties, written as a map, between
    /// two lines of three hyphens.
    pub fn to_string(&self) -> (r: Result<String, serde_yaml::Error>)
        ensures
            r matches Ok(text) ==> exists|yaml: Seq<char>| text@ == #[trigger] framed_text(yaml),
    {
        Frontmatter::shown(yaml_text(&self.map))
    }

    /// Writes the front matter into the document: its text becomes the text
    /// of every front matter in `ast`. Where the properties cannot be
    /// written as text, the document stays as it is.
    pub fn insert_ast(&self, ast: &mut Node) -> (r: Result<(), serde_yaml::Error>)
        ensures
            r is Err ==> *final(ast) == *old(ast),
            r is Ok ==> exists|yaml: Seq<char>|
                final(ast)@ == with_frontmatter(old(ast)@, #[trigger] framed_text(yaml)),
    {
        Frontmatter::inserted(self.to_string(), ast)
    }

    /// What writing the front matter as text gives, once its properties were
    /// written as a map: the map between two lines of three hyphens, or the
    /// failure to write the map.
    pub fn shown(written: Result<String, serde_yaml::Error>) -> (r: Result<
        String,
        serde_yaml::Error,
    >)
        ensures
            match written {
                Ok(yaml) => r matches Ok(text) && text@ == framed_text(yaml@),
                Err(error) => r == Err::<String, serde_yaml::Error>(error),
            },
    {
        match written {
            Ok(yaml) => Ok(framed(yaml.as_str())),
            Err(error) => Err(error),
        }
    }

    /// What writing the front matter into the document gives, once the front
    /// matter was made text: `text` becomes the text of every front matter
    /// in `ast`; where there is no text but a failure, the failure is handed
    /// on and the document stays as it is.
    pub fn inserted(text: Result<String, serde_yaml::Error>, ast: &mut Node) -> (r: Result<
        (),
        serde_yaml::Error,
    >)
        ensures
            match text {
                Ok(t) => r is Ok && final(ast)@ == with_frontmatter(old(ast)@, t@),
                Err(error) => r == Err::<(), serde_yaml::Error>(error) && *final(ast) == *old(
                    ast,
                ),
            },
    {
        match text {
            Ok(t) => {
                set_frontmatter(ast, t.as_str());
                Ok(())
            },
            Err(error) => Err(error),
        }
    }
}

} // verus!
