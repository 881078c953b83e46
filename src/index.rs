use vstd::prelude::*;
use vstd::string::{StrSliceExecFns, StringExecFns};

use crate::gitout::{contains, has_infix};

verus! {

broadcast use vstd::string::group_string_axioms;

/// A text file of a checkout, held in the index.
pub struct Document {
    pub id: String,
    pub title: String,
    pub path: String,
    pub content: String,
    pub category: String,
    pub repo: String,
}

pub struct DocView {
    pub id: Seq<char>,
    pub title: Seq<char>,
    pub path: Seq<char>,
    pub content: Seq<char>,
    pub category: Seq<char>,
    pub repo: Seq<char>,
}

impl View for Document {
    type V = DocView;

    open spec fn view(&self) -> DocView {
        DocView {
            id: self.id@,
            title: self.title@,
            path: self.path@,
            content: self.content@,
            category: self.category@,
            repo: self.repo@,
        }
    }
}

/// `s` in lower case, as `str::to_lowercase` gives it.
pub uninterp spec fn lower_of(s: Seq<char>) -> Seq<char>;

/// Relies on `str::to_lowercase`: the result depends on the characters alone.
#[verifier::external_body]
fn lowercase(s: &str) -> (r: String)
    ensures
        r@ == lower_of(s@),
{
    s.to_lowercase()
}

/// A document matches a lower-cased query when its lower-cased title or
/// content holds it.
pub open spec fn matches_folded_spec(q: Seq<char>, title: Seq<char>, content: Seq<char>) -> bool {
    has_infix(title, q) || has_infix(content, q)
}

pub open spec fn doc_matches(q: Seq<char>, d: DocView) -> bool {
    matches_folded_spec(lower_of(q), lower_of(d.title), lower_of(d.content))
}

/// The documents of `s` that match `q`, in order.
pub open spec fn matching(s: Seq<DocView>, q: Seq<char>) -> Seq<DocView>
    decreases s.len(),
{
    if s.len() == 0 {
        Seq::empty()
    } else if doc_matches(q, s.last()) {
        matching(s.drop_last(), q).push(s.last())
    } else {
        matching(s.drop_last(), q)
    }
}

pub open spec fn doc_views(s: Seq<Document>) -> Seq<DocView> {
    Seq::new(s.len(), |i: int| s[i]@)
}

pub open spec fn unique_ids(s: Seq<DocView>) -> bool {
    forall|i: int, j: int| 0 <= i < j < s.len() ==> s[i].id != s[j].id
}

/// Whether a lower-cased query occurs in a lower-cased title or content.
pub fn matches_folded(q: &str, title: &str, content: &str) -> (r: bool)
    ensures
        r == matches_folded_spec(q@, title@, content@),
{
    contains(title, q) || contains(content, q)
}

/// A document title from a file name: underscores become spaces.
pub open spec fn title_of(file_name: Seq<char>) -> Seq<char> {
    Seq::new(file_name.len(), |i: int| if file_name[i] == '_' { ' ' } else { file_name[i] })
}

/// The title of the document read from `file_name`.
pub fn doc_title(file_name: &str) -> (r: String)
    ensures
        r@ == title_of(file_name@),
{
    let n = file_name.unicode_len();
    let mut out = String::new();
    let mut i: usize = 0;
    while i < n
        invariant
            n == file_name@.len(),
            i <= n,
            out@ == title_of(file_name@.subrange(0, i as int)),
        decreases n - i,
    {
        let c = file_name.get_char(i);
        if c == '_' {
            proof {
                reveal_strlit(" ");
            }
            out.append(" ");
        } else {
            out.append(file_name.substring_char(i, i + 1));
        }
        assert(title_of(file_name@.subrange(0, i + 1)) =~= title_of(
            file_name@.subrange(0, i as int),
        ).push(if c == '_' { ' ' } else { c }));
        i = i + 1;
    }
    assert(file_name@.subrange(0, n as int) =~= file_name@);
    out
}

pub open spec fn md_suffix() -> Seq<char> {
    seq!['.', 'm', 'd']
}

/// `s` with every occurrence of `p` taken out, scanning from the left.
pub open spec fn without(s: Seq<char>, p: Seq<char>) -> Seq<char>
    decreases s.len(),
{
    if s.len() == 0 || p.len() == 0 {
        s
    } else if p.len() <= s.len() && s.subrange(0, p.len() as int) == p {
        without(s.subrange(p.len() as int, s.len() as int), p)
    } else {
        seq![s[0]] + without(s.subrange(1, s.len() as int), p)
    }
}

/// The id of the document read from `file_name`: `prefix-name`, where
/// `name` is the file name with every `.md` taken out.
pub fn doc_id(prefix: &str, file_name: &str) -> (r: String)
    ensures
        r@ == prefix@ + seq!['-'] + without(file_name@, md_suffix()),
{
    proof {
        reveal_strlit(".md");
        reveal_strlit("-");
        assert(".md"@ =~= md_suffix());
    }
    let n = file_name.unicode_len();
    let md = String::from_str(".md");
    let mut out = String::from_str(prefix).concat("-");
    let ghost base = out@;
    let ghost s = file_name@;
    let mut i: usize = 0;
    assert(s.subrange(0, n as int) =~= s);
    while i < n
        invariant
            n == s.len(),
            s == file_name@,
            md@ == md_suffix(),
            i <= n,
            base + without(s, md_suffix()) == out@ + without(s.subrange(i as int, n as int), md_suffix()),
        decreases n - i,
    {
        let ghost rest = s.subrange(i as int, n as int);
        if n - i >= 3 && String::from_str(file_name.substring_char(i, i + 3)) == md {
            proof {
                assert(rest.subrange(0, 3) =~= s.subrange(i as int, i + 3));
                assert(rest.subrange(3, rest.len() as int) =~= s.subrange(i + 3, n as int));
            }
            i = i + 3;
        } else {
            proof {
                if 3 <= rest.len() {
                    assert(rest.subrange(0, 3) =~= s.subrange(i as int, i + 3));
                }
                assert(rest.subrange(1, rest.len() as int) =~= s.subrange(i + 1, n as int));
                assert(rest[0] == s[i as int]);
            }
            let c = file_name.substring_char(i, i + 1);
            proof {
                assert(c@ =~= seq![s[i as int]]);
            }
            out.append(c);
            proof {
                assert(out@ + without(s.subrange(i + 1, n as int), md_suffix()) =~= (out@.drop_last()
                    + seq![s[i as int]]) + without(s.subrange(i + 1, n as int), md_suffix()));
            }
            i = i + 1;
        }
    }
    proof {
        assert(s.subrange(n as int, n as int) =~= Seq::<char>::empty());
        assert(base + without(s, md_suffix()) =~= out@);
    }
    out
}

/// The documents of the checkouts, one for each id.
pub struct DocumentIndex {
    documents: Vec<Document>,
}

impl View for DocumentIndex {
    type V = Seq<DocView>;

    closed spec fn view(&self) -> Seq<DocView> {
        doc_views(self.documents@)
    }
}

impl DocumentIndex {
    pub closed spec fn wf(&self) -> bool {
        unique_ids(self@)
    }

    /// An empty index.
    pub fn new() -> (r: DocumentIndex)
        ensures
            r@ == Seq::<DocView>::empty(),
            r.wf(),
    {
        let r = DocumentIndex { documents: Vec::new() };
        assert(r@ =~= Seq::<DocView>::empty());
        r
    }

    /// How many documents the index holds.
    pub fn len(&self) -> (r: usize)
        ensures
            r == self@.len(),
    {
        self.documents.len()
    }

    /// Drops every document.
    pub fn clear(&mut self)
        ensures
            final(self)@ == Seq::<DocView>::empty(),
            final(self).wf(),
    {
        self.documents = Vec::new();
        assert(self@ =~= Seq::<DocView>::empty());
    }

    /// The documents, in the order they were first added.
    pub fn documents(&self) -> (r: &Vec<Document>)
        ensures
            doc_views(r@) == self@,
    {
        &self.documents
    }

    /// The document with id `id`, if any.
    pub fn get(&self, id: &str) -> (r: Option<&Document>)
        requires
            self.wf(),
        ensures
            match r {
                Some(d) => exists|i: int| 0 <= i < self@.len() && self@[i] == d@ && d.id@ == id@,
                None => forall|i: int| 0 <= i < self@.len() ==> self@[i].id != id@,
            },
    {
        let key = String::from_str(id);
        let mut i: usize = 0;
        while i < self.documents.len()
            invariant
                i <= self.documents@.len(),
                key@ == id@,
                forall|k: int| 0 <= k < i ==> self@[k].id != id@,
            decreases self.documents@.len() - i,
        {
            if self.documents[i].id == key {
                assert(self@[i as int] == self.documents@[i as int]@);
                return Some(&self.documents[i]);
            }
            i = i + 1;
        }
        None
    }

    /// Adds a document; one with the same id is replaced in place.
    pub fn add_document(
        &mut self,
        id: &str,
        title: &str,
        path: &str,
        content: String,
        category: &str,
        repo: &str,
    )
        requires
            old(self).wf(),
        ensures
            final(self).wf(),
            ({
                let d = DocView {
                    id: id@,
                    title: title@,
                    path: path@,
                    content: content@,
                    category: category@,
                    repo: repo@,
                };
                ||| exists|i: int|
                    0 <= i < old(self)@.len() && old(self)@[i].id == id@ && final(self)@ == old(
                        self,
                    )@.update(i, d)
                ||| (forall|i: int| 0 <= i < old(self)@.len() ==> old(self)@[i].id != id@)
                    && final(self)@ == old(self)@.push(d)
            }),
    {
        let doc = Document {
            id: String::from_str(id),
            title: String::from_str(title),
            path: String::from_str(path),
            content,
            category: String::from_str(category),
            repo: String::from_str(repo),
        };
        let mut i: usize = 0;
        while i < self.documents.len()
            invariant
                i <= self.documents@.len(),
                doc.id@ == id@,
                doc@.title == title@ && doc@.path == path@ && doc@.content == content@
                    && doc@.category == category@ && doc@.repo == repo@,
                self.documents@ == old(self).documents@,
                unique_ids(doc_views(self.documents@)),
                forall|k: int| 0 <= k < i ==> self.documents@[k].id@ != id@,
            decreases self.documents@.len() - i,
        {
            if self.documents[i].id == doc.id {
                let ghost before = self@;
                self.documents.set(i, doc);
                assert(self@ =~= before.update(i as int, doc@));
                assert(before[i as int].id == id@);
                assert(unique_ids(self@));
                return;
            }
            i = i + 1;
        }
        let ghost before = self@;
        self.documents.push(doc);
        assert(self@ =~= before.push(doc@));
        assert(forall|k: int| 0 <= k < before.len() ==> before[k].id != id@);
    }

    /// The documents whose title or content holds `query`, ignoring case,
    /// in index order.
    pub fn search(&self, query: &str) -> (r: Vec<Document>)
        ensures
            doc_views(r@) == matching(self@, query@),
    {
        let q = lowercase(query);
        let mut out: Vec<Document> = Vec::new();
        let mut i: usize = 0;
        while i < self.documents.len()
            invariant
                i <= self.documents@.len(),
                q@ == lower_of(query@),
                doc_views(out@) == matching(self@.subrange(0, i as int), query@),
            decreases self.documents@.len() - i,
        {
            let d = &self.documents[i];
            assert(self@.subrange(0, i + 1).drop_last() =~= self@.subrange(0, i as int));
            assert(self@[i as int] == d@);
            let t = lowercase(d.title.as_str());
            let c = lowercase(d.content.as_str());
            if matches_folded(q.as_str(), t.as_str(), c.as_str()) {
                let copy = Document {
                    id: d.id.clone(),
                    title: d.title.clone(),
                    path: d.path.clone(),
                    content: d.content.clone(),
                    category: d.category.clone(),
                    repo: d.repo.clone(),
                };
                out.push(copy);
            }
            assert(doc_views(out@) =~= matching(self@.subrange(0, i + 1), query@));
            i = i + 1;
        }
        assert(self@.subrange(0, self@.len() as int) =~= self@);
        out
    }
}

} // verus!
