use vstd::prelude::*;
use crate::text::{join_path, joined_path, same_text};

verus! {

/// What the ingestor does with a multipart part, by the part's name.
#[derive(Clone, Copy, Debug, PartialEq, Eq, Structural)]
pub enum FieldKind {
    Author,
    Title,
    Description,
    /// The file field: its declared file name is recorded and its bytes are
    /// written to the storage directory.
    Image,
    /// Unknown names are skipped.
    Ignored,
}

pub open spec fn kind_of(name: Seq<char>) -> FieldKind {
    if name == "author"@ {
        FieldKind::Author
    } else if name == "title"@ {
        FieldKind::Title
    } else if name == "description"@ {
        FieldKind::Description
    } else if name == "image"@ {
        FieldKind::Image
    } else {
        FieldKind::Ignored
    }
}

/// Classifies a part by its name.
pub fn field_kind(name: &str) -> (k: FieldKind)
    ensures
        k == kind_of(name@),
{
    if same_text(name, "author") {
        FieldKind::Author
    } else if same_text(name, "title") {
        FieldKind::Title
    } else if same_text(name, "description") {
        FieldKind::Description
    } else if same_text(name, "image") {
        FieldKind::Image
    } else {
        FieldKind::Ignored
    }
}

/// One part of the upload as read off the stream: its name, and its text
/// (for the text fields) or its declared file name (for the file field).
#[derive(Clone, Debug)]
pub struct Part {
    pub name: String,
    pub value: String,
}

pub ghost struct PartView {
    pub name: Seq<char>,
    pub value: Seq<char>,
}

impl View for Part {
    type V = PartView;

    open spec fn view(&self) -> PartView {
        PartView { name: self.name@, value: self.value@ }
    }
}

/// The record of a media upload, filled part by part; a field whose part never
/// came stays empty.
#[derive(Clone, Debug)]
pub struct NewNFT {
    pub title: String,
    pub description: String,
    pub author: String,
    pub filename: String,
}

pub ghost struct NftView {
    pub title: Seq<char>,
    pub description: Seq<char>,
    pub author: Seq<char>,
    pub filename: Seq<char>,
}

impl View for NewNFT {
    type V = NftView;

    open spec fn view(&self) -> NftView {
        NftView { title: self.title@, description: self.description@, author: self.author@, filename: self.filename@ }
    }
}

pub open spec fn empty_record() -> NftView {
    NftView { title: Seq::empty(), description: Seq::empty(), author: Seq::empty(), filename: Seq::empty() }
}

/// The record after one more part: a known field is overwritten, anything
/// else leaves the record as it was.
pub open spec fn apply_part(r: NftView, p: PartView) -> NftView {
    match kind_of(p.name) {
        FieldKind::Author => NftView { author: p.value, ..r },
        FieldKind::Title => NftView { title: p.value, ..r },
        FieldKind::Description => NftView { description: p.value, ..r },
        FieldKind::Image => NftView { filename: p.value, ..r },
        FieldKind::Ignored => r,
    }
}

/// The record after a whole stream of parts, in order.
pub open spec fn fold_parts(r: NftView, ps: Seq<PartView>) -> NftView
    decreases ps.len(),
{
    if ps.len() == 0 {
        r
    } else {
        apply_part(fold_parts(r, ps.drop_last()), ps.last())
    }
}

impl NewNFT {
    /// A record with every field empty.
    pub fn new() -> (r: NewNFT)
        ensures
            r@ == empty_record(),
    {
        NewNFT { title: String::new(), description: String::new(), author: String::new(), filename: String::new() }
    }

    /// Takes in one part: a known field is overwritten, anything else is
    /// skipped.
    pub fn record(&mut self, part: Part)
        ensures
            final(self)@ == apply_part(old(self)@, part@),
    {
        match field_kind(part.name.as_str()) {
            FieldKind::Author => self.author = part.value,
            FieldKind::Title => self.title = part.value,
            FieldKind::Description => self.description = part.value,
            FieldKind::Image => self.filename = part.value,
            FieldKind::Ignored => {},
        }
    }

    /// Takes in one part. For the file field, returns the path under
    /// `storage_dir` where its bytes are to be written; an earlier file of the
    /// same name there is overwritten.
    pub fn accept_part(&mut self, part: Part, storage_dir: &str) -> (write_to: Option<String>)
        ensures
            final(self)@ == apply_part(old(self)@, part@),
            kind_of(part@.name) == FieldKind::Image ==> write_to is Some && write_to->0@ == joined_path(storage_dir@, part@.value),
            kind_of(part@.name) != FieldKind::Image ==> write_to is None,
    {
        let write_to = match field_kind(part.name.as_str()) {
            FieldKind::Image => Some(join_path(storage_dir, part.value.as_str())),
            _ => None,
        };
        self.record(part);
        write_to
    }
}

/// Folds a whole stream of parts into a record.
pub fn ingest(parts: Vec<Part>) -> (r: NewNFT)
    ensures
        r@ == fold_parts(empty_record(), parts@.map_values(|p: Part| p@)),
{
    let mut rec = NewNFT::new();
    let ghost views = parts@.map_values(|p: Part| p@);
    let mut i: usize = 0;
    while i < parts.len()
        invariant
            i <= parts@.len(),
            views == parts@.map_values(|p: Part| p@),
            rec@ == fold_parts(empty_record(), views.subrange(0, i as int)),
        decreases parts@.len() - i,
    {
        let p = Part { name: parts[i].name.clone(), value: parts[i].value.clone() };
        rec.record(p);
        assert(views.subrange(0, i as int + 1).drop_last() =~= views.subrange(0, i as int));
        i = i + 1;
    }
    assert(views.subrange(0, i as int) =~= views);
    rec
}

/// The field of a record that parts of kind `k` fill.
pub open spec fn field_of(r: NftView, k: FieldKind) -> Seq<char> {
    match k {
        FieldKind::Author => r.author,
        FieldKind::Title => r.title,
        FieldKind::Description => r.description,
        FieldKind::Image => r.filename,
        FieldKind::Ignored => Seq::empty(),
    }
}

/// The value of the last part of kind `k`, or `dflt` when there is none.
pub open spec fn last_value(ps: Seq<PartView>, k: FieldKind, dflt: Seq<char>) -> Seq<char>
    decreases ps.len(),
{
    if ps.len() == 0 {
        dflt
    } else if kind_of(ps.last().name) == k {
        ps.last().value
    } else {
        last_value(ps.drop_last(), k, dflt)
    }
}

/// The part at `i` is the one and only part of kind `k`.
pub open spec fn only_at(ps: Seq<PartView>, k: FieldKind, i: int) -> bool {
    &&& 0 <= i < ps.len()
    &&& kind_of(ps[i].name) == k
    &&& forall|j: int| 0 <= j < ps.len() && j != i ==> kind_of(#[trigger] ps[j].name) != k
}

/// Each field of the folded record is the last value given to it.
pub proof fn lemma_fold_takes_last(r: NftView, ps: Seq<PartView>, k: FieldKind)
    requires
        k != FieldKind::Ignored,
    ensures
        field_of(fold_parts(r, ps), k) == last_value(ps, k, field_of(r, k)),
    decreases ps.len(),
{
    if ps.len() > 0 {
        lemma_fold_takes_last(r, ps.drop_last(), k);
    }
}

/// With a single part of kind `k`, that part gives the value.
pub proof fn lemma_single_part_value(ps: Seq<PartView>, k: FieldKind, i: int, dflt: Seq<char>)
    requires
        only_at(ps, k, i),
    ensures
        last_value(ps, k, dflt) == ps[i].value,
    decreases ps.len(),
{
    if i != ps.len() - 1 {
        let rest = ps.drop_last();
        assert(kind_of(ps[ps.len() - 1].name) != k);
        assert forall|j: int| 0 <= j < rest.len() && j != i implies kind_of(#[trigger] rest[j].name) != k by {
            assert(rest[j] == ps[j]);
        }
        lemma_single_part_value(rest, k, i, dflt);
    }
}

/// Whatever the order of the parts, an upload with exactly one part for each
/// of `author`, `title`, `description` and `image` (unknown parts anywhere)
/// yields the record of those four values.
pub proof fn lemma_any_order(ps: Seq<PartView>, ia: int, it: int, id: int, ii: int)
    requires
        only_at(ps, FieldKind::Author, ia),
        only_at(ps, FieldKind::Title, it),
        only_at(ps, FieldKind::Description, id),
        only_at(ps, FieldKind::Image, ii),
    ensures
        fold_parts(empty_record(), ps) == (NftView {
            author: ps[ia].value,
            title: ps[it].value,
            description: ps[id].value,
            filename: ps[ii].value,
        }),
{
    let r = fold_parts(empty_record(), ps);
    lemma_fold_takes_last(empty_record(), ps, FieldKind::Author);
    lemma_fold_takes_last(empty_record(), ps, FieldKind::Title);
    lemma_fold_takes_last(empty_record(), ps, FieldKind::Description);
    lemma_fold_takes_last(empty_record(), ps, FieldKind::Image);
    lemma_single_part_value(ps, FieldKind::Author, ia, Seq::empty());
    lemma_single_part_value(ps, FieldKind::Title, it, Seq::empty());
    lemma_single_part_value(ps, FieldKind::Description, id, Seq::empty());
    lemma_single_part_value(ps, FieldKind::Image, ii, Seq::empty());
}

} // verus!
