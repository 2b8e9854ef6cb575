//! Errors of the application layer, and the field-to-reason map that rejections carry.
use vstd::prelude::*;
use vstd::utf8::encode_utf8;

verus! {

/// Byte-wise lexicographic order: `a` sorts strictly before `b`.
pub open spec fn bytes_lt(a: Seq<u8>, b: Seq<u8>) -> bool
    decreases a.len(),
{
    if a.len() == 0 {
        b.len() > 0
    } else if b.len() == 0 {
        false
    } else if a[0] != b[0] {
        a[0] < b[0]
    } else {
        bytes_lt(a.drop_first(), b.drop_first())
    }
}

proof fn lemma_bytes_lt_trichotomy(a: Seq<u8>, b: Seq<u8>)
    ensures
        a == b || bytes_lt(a, b) || bytes_lt(b, a),
    decreases a.len(),
{
    if a.len() > 0 && b.len() > 0 && a[0] == b[0] {
        lemma_bytes_lt_trichotomy(a.drop_first(), b.drop_first());
        if a.drop_first() == b.drop_first() {
            assert(a =~= seq![a[0]] + a.drop_first());
            assert(b =~= seq![b[0]] + b.drop_first());
        }
    } else if a.len() == 0 && b.len() == 0 {
        assert(a =~= b);
    }
}

/// Whether `a` sorts strictly before `b`, comparing their bytes.
fn bytes_less(a: &[u8], b: &[u8]) -> (r: bool)
    ensures
        r == bytes_lt(a@, b@),
{
    let mut i: usize = 0;
    assert(a@.subrange(0, a@.len() as int) =~= a@);
    assert(b@.subrange(0, b@.len() as int) =~= b@);
    while i < a.len() && i < b.len()
        invariant
            i <= a@.len(),
            i <= b@.len(),
            bytes_lt(a@, b@) == bytes_lt(a@.subrange(i as int, a@.len() as int), b@.subrange(i as int, b@.len() as int)),
        decreases a@.len() - i,
    {
        let ghost sa = a@.subrange(i as int, a@.len() as int);
        let ghost sb = b@.subrange(i as int, b@.len() as int);
        if a[i] != b[i] {
            return a[i] < b[i];
        }
        assert(sa.drop_first() =~= a@.subrange(i + 1, a@.len() as int));
        assert(sb.drop_first() =~= b@.subrange(i + 1, b@.len() as int));
        i = i + 1;
    }
    i < b.len()
}

/// Rejection reasons keyed by the path of the offending field, kept sorted by field (byte-wise)
/// with each field at most once, so that they always render in one order.
#[derive(Debug)]
pub struct ErrorMap {
    entries: Vec<(String, String)>,
}

/// The UTF-8 bytes of a field path: what the map's order compares.
pub open spec fn key_bytes(field: Seq<char>) -> Seq<u8> {
    encode_utf8(field)
}

/// Whether a list of (field, reason) pairs is strictly sorted by field.
pub open spec fn sorted_by_field(entries: Seq<(Seq<char>, Seq<char>)>) -> bool {
    forall|i: int|
        0 <= i < entries.len() - 1 ==> bytes_lt(
            key_bytes(#[trigger] entries[i].0),
            key_bytes(entries[i + 1].0),
        )
}

impl View for ErrorMap {
    type V = Seq<(Seq<char>, Seq<char>)>;

    closed spec fn view(&self) -> Seq<(Seq<char>, Seq<char>)> {
        self.entries@.map_values(|e: (String, String)| (e.0@, e.1@))
    }
}

/// How one entry renders: `field: reason`.
pub open spec fn render_entry(e: (Seq<char>, Seq<char>)) -> Seq<char> {
    e.0 + ": "@ + e.1
}

/// The entries rendered one after another, separated by `, `.
pub open spec fn render_entries(entries: Seq<(Seq<char>, Seq<char>)>) -> Seq<char>
    decreases entries.len(),
{
    if entries.len() == 0 {
        Seq::empty()
    } else if entries.len() == 1 {
        render_entry(entries[0])
    } else {
        render_entries(entries.drop_last()) + ", "@ + render_entry(entries.last())
    }
}

impl ErrorMap {
    /// Whether the entries are strictly sorted by field.
    pub open spec fn wf(&self) -> bool {
        sorted_by_field(self@)
    }

    /// A map with no entries.
    pub fn new() -> (r: ErrorMap)
        ensures
            r@ == Seq::<(Seq<char>, Seq<char>)>::empty(),
            r.wf(),
    {
        ErrorMap { entries: Vec::new() }
    }

    /// A map with one entry.
    pub fn single(field: &str, reason: &str) -> (r: ErrorMap)
        ensures
            r@ == seq![(field@, reason@)],
            r.wf(),
    {
        let mut v: Vec<(String, String)> = Vec::new();
        v.push((field.to_string(), reason.to_string()));
        let r = ErrorMap { entries: v };
        assert(r@ =~= seq![(field@, reason@)]);
        r
    }

    /// The number of entries.
    pub fn len(&self) -> (r: usize)
        ensures
            r == self@.len(),
    {
        self.entries.len()
    }

    /// The reason recorded for `field`, if any.
    pub fn get(&self, field: &str) -> (r: Option<&String>)
        ensures
            match r {
                Some(v) => exists|i: int|
                    0 <= i < self@.len() && (#[trigger] self@[i]).0 == field@ && self@[i].1 == v@,
                None => forall|i: int| 0 <= i < self@.len() ==> (#[trigger] self@[i]).0 != field@,
            },
    {
        let mut i: usize = 0;
        while i < self.entries.len()
            invariant
                i <= self@.len(),
                self@.len() == self.entries@.len(),
                forall|j: int| 0 <= j < i ==> (#[trigger] self@[j]).0 != field@,
            decreases self@.len() - i,
        {
            if crate::keys::bytes_eq(self.entries[i].0.as_str().as_bytes(), field.as_bytes()) {
                proof {
                    vstd::utf8::encode_utf8_decode_utf8(self@[i as int].0);
                    vstd::utf8::encode_utf8_decode_utf8(field@);
                }
                return Some(&self.entries[i].1);
            }
            proof {
                if self@[i as int].0 == field@ {
                    assert(self.entries@[i as int].0@ == field@);
                }
            }
            i = i + 1;
        }
        None
    }

    /// Sets the reason for `field`: an entry for the field is replaced, otherwise a new entry
    /// goes where the order puts it.
    pub fn insert(&mut self, field: String, reason: String)
        requires
            old(self).wf(),
        ensures
            final(self).wf(),
            exists|p: int|
                0 <= p <= old(self)@.len() && {
                    ||| (p < old(self)@.len() && old(self)@[p].0 == field@ && final(self)@
                        == old(self)@.update(p, (field@, reason@)))
                    ||| final(self)@ == old(self)@.insert(p, (field@, reason@))
                },
    {
        let ghost before = self@;
        let mut i: usize = 0;
        while i < self.entries.len() && bytes_less(
            self.entries[i].0.as_str().as_bytes(),
            field.as_str().as_bytes(),
        )
            invariant
                self@ == before,
                sorted_by_field(before),
                i <= before.len(),
                forall|j: int| 0 <= j < i ==> bytes_lt(key_bytes(#[trigger] before[j].0), key_bytes(field@)),
            decreases before.len() - i,
        {
            i = i + 1;
        }
        let ghost item = (field@, reason@);
        if i < self.entries.len() && self.entries[i].0 == field {
            self.entries.set(i, (field, reason));
            assert(self@ =~= before.update(i as int, item));
            assert forall|j: int| 0 <= j < self@.len() implies (#[trigger] self@[j]).0 == before[j].0 by {}
            assert(sorted_by_field(self@));
        } else {
            proof {
                if i < before.len() {
                    lemma_bytes_lt_trichotomy(key_bytes(before[i as int].0), key_bytes(field@));
                    vstd::utf8::encode_utf8_decode_utf8(before[i as int].0);
                    vstd::utf8::encode_utf8_decode_utf8(field@);
                }
            }
            self.entries.insert(i, (field, reason));
            assert(self@ =~= before.insert(i as int, item));
            assert forall|j: int| 0 <= j < self@.len() - 1 implies bytes_lt(
                key_bytes(#[trigger] self@[j].0),
                key_bytes(self@[j + 1].0),
            ) by {
                if j < i - 1 {
                    assert(self@[j] == before[j] && self@[j + 1] == before[j + 1]);
                } else if j > i {
                    assert(self@[j] == before[j - 1] && self@[j + 1] == before[j]);
                }
            }
        }
    }
}


/// Renders the entries as `[field: reason, ...]`, in the map's order (sorted by field).
pub fn format_error_map(errors: &ErrorMap) -> (r: String)
    ensures
        r@ == "["@ + render_entries(errors@) + "]"@,
{
    let mut out = String::new();
    out.append("[");
    let mut i: usize = 0;
    while i < errors.entries.len()
        invariant
            i <= errors@.len(),
            errors@.len() == errors.entries@.len(),
            out@ == "["@ + render_entries(errors@.take(i as int)),
        decreases errors@.len() - i,
    {
        proof {
            assert(errors@.take(i + 1).drop_last() =~= errors@.take(i as int));
            assert(errors@.take(i + 1).last() == errors@[i as int]);
        }
        if i > 0 {
            out.append(", ");
        }
        out.append(errors.entries[i].0.as_str());
        out.append(": ");
        out.append(errors.entries[i].1.as_str());
        i = i + 1;
    }
    assert(errors@.take(i as int) =~= errors@);
    out.append("]");
    out
}

#[verifier::external_type_specification]
#[verifier::external_body]
pub struct ExAnyhowError(anyhow::Error);

/// A failure of an application-layer operation.
#[derive(Debug)]
pub enum ApplicationError {
    /// Rejected input: the offending fields, each with a reason.
    InvalidData(ErrorMap),
    /// Something asked for does not exist.
    NotFound(String),
    /// A collaborator failed.
    Other(anyhow::Error),
}

/// Relies on `anyhow::Error`'s `Display`: the error's own message. Nothing is promised of it.
#[verifier::external_body]
fn outside_message(e: &anyhow::Error) -> String {
    e.to_string()
}

impl ApplicationError {
    /// The human-readable message: `Invalid data: [field: reason, ...]`, `Not found: what`, or
    /// the collaborator's own message.
    pub fn message(&self) -> (r: String)
        ensures
            self matches ApplicationError::InvalidData(m) ==> r@ == "Invalid data: "@ + "["@
                + render_entries(m@) + "]"@,
            self matches ApplicationError::NotFound(w) ==> r@ == "Not found: "@ + w@,
    {
        match self {
            ApplicationError::InvalidData(m) => {
                let mut out = String::from_str("Invalid data: ");
                let rendered = format_error_map(m);
                out.append(rendered.as_str());
                out
            },
            ApplicationError::NotFound(w) => {
                let mut out = String::from_str("Not found: ");
                out.append(w.as_str());
                out
            },
            ApplicationError::Other(e) => outside_message(e),
        }
    }
}

} // verus!
