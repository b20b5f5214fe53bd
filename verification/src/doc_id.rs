//! Document identifiers: generation, validation and storage paths.

use crate::alphabet::{in_alphabet, is_alphanumeric, is_ascii_alphanumeric, symbol_at, symbol_for, lemma_alphabet_is_alphanumeric};
use crate::random::next_sample;
use vstd::prelude::*;
use vstd::string::StringExecFns;

verus! {

/// The length of the identifiers that the service hands out.
pub const ID_LENGTH: usize = 6;

/// Whether `text` is acceptable as an identifier: not empty, and made of ASCII
/// letters and digits only.
pub open spec fn is_valid_id(text: Seq<char>) -> bool {
    &&& text.len() > 0
    &&& forall|i: int| 0 <= i < text.len() ==> is_alphanumeric(#[trigger] text[i])
}

/// The identifier that a sequence of samples encodes: one symbol of the
/// alphabet for each sample, chosen by the sample's remainder modulo 62.
pub open spec fn encode_samples(samples: Seq<usize>) -> Seq<char> {
    Seq::new(samples.len(), |i: int| symbol_at(samples[i] as int % 62))
}

/// The location of the document named `id` under the directory `root`: the
/// root, one separator, and the identifier as the only further segment.
pub open spec fn storage_path(root: Seq<char>, id: Seq<char>) -> Seq<char> {
    root + seq!['/'] + id
}

/// `String::push`: appends one character to the end of the string.
pub assume_specification[ String::push ](text: &mut String, c: char)
    ensures
        final(text)@ == old(text)@.push(c),
;

/// The name of a stored document.
///
/// Every value of this type is a valid identifier: it is never empty and holds
/// ASCII letters and digits only.
#[derive(Debug)]
pub struct DocId {
    id: String,
}

impl View for DocId {
    type V = Seq<char>;

    closed spec fn view(&self) -> Seq<char> {
        self.id@
    }
}

impl Clone for DocId {
    fn clone(&self) -> (copy: DocId)
        ensures
            copy@ == self@,
    {
        proof {
            use_type_invariant(self);
        }
        DocId { id: self.id.clone() }
    }
}

impl DocId {
    #[verifier::type_invariant]
    spec fn well_formed(self) -> bool {
        is_valid_id(self.id@)
    }

    /// Builds the identifier that `samples` encodes. The same samples always
    /// give the same identifier.
    pub fn from_samples(samples: &Vec<usize>) -> (id: DocId)
        requires
            samples@.len() >= 1,
        ensures
            id@ == encode_samples(samples@),
            id@.len() == samples@.len(),
            is_valid_id(id@),
            forall|i: int| 0 <= i < id@.len() ==> in_alphabet(#[trigger] id@[i]),
    {
        let mut text = String::new();
        let mut n: usize = 0;
        while n < samples.len()
            invariant
                n <= samples@.len(),
                text@.len() == n,
                forall|i: int| 0 <= i < n ==> text@[i] == symbol_at(samples@[i] as int % 62),
            decreases samples@.len() - n,
        {
            text.push(symbol_for(samples[n]));
            n += 1;
        }
        proof {
            assert(text@ =~= encode_samples(samples@));
            lemma_encoded_samples_are_valid(samples@);
        }
        DocId { id: text }
    }

    /// Generates a fresh identifier of `size` characters, each drawn from the
    /// 62-symbol alphabet by the thread's random generator. Two calls may give
    /// the same identifier: the longer the identifier, the less likely.
    pub fn new(size: usize) -> (id: DocId)
        requires
            size >= 1,
        ensures
            id@.len() == size,
            is_valid_id(id@),
            forall|i: int| 0 <= i < size ==> in_alphabet(#[trigger] id@[i]),
    {
        let mut rng = rand::thread_rng();
        let mut samples: Vec<usize> = Vec::new();
        let mut n: usize = 0;
        while n < size
            invariant
                n <= size,
                samples@.len() == n,
            decreases size - n,
        {
            samples.push(next_sample(&mut rng));
            n += 1;
        }
        DocId::from_samples(&samples)
    }

    /// Accepts `param` as an identifier if it is not empty and holds ASCII
    /// letters and digits only. Anything else is handed back unchanged as the
    /// error, so that the caller can report what was rejected.
    pub fn from_param(param: &str) -> (checked: Result<DocId, &str>)
        ensures
            is_valid_id(param@) <==> checked is Ok,
            checked matches Ok(id) ==> id@ == param@,
            checked matches Err(rejected) ==> rejected == param,
    {
        if param.is_empty() {
            return Err(param);
        }
        let mut accepted = true;
        for c in it: param.chars()
            invariant
                it.seq() == param@,
                accepted <==> forall|i: int|
                    0 <= i < it.index() ==> is_alphanumeric(#[trigger] param@[i]),
        {
            accepted = accepted && is_ascii_alphanumeric(c);
        }
        if !accepted {
            return Err(param);
        }
        Ok(DocId { id: String::from_str(param) })
    }

    /// The identifier as text.
    pub fn as_str(&self) -> (text: &str)
        ensures
            text@ == self@,
            is_valid_id(self@),
    {
        proof {
            use_type_invariant(self);
        }
        self.id.as_str()
    }

    /// The identifier as an owned string, for handing back to a client.
    pub fn to_string(&self) -> (text: String)
        ensures
            text@ == self@,
            is_valid_id(self@),
    {
        proof {
            use_type_invariant(self);
        }
        self.id.clone()
    }

    /// The path of this identifier's document under the directory `root`.
    /// The file system is not consulted.
    pub fn file_path(&self, root: &str) -> (path: String)
        ensures
            path@ == storage_path(root@, self@),
            is_valid_id(self@),
            is_direct_child(path@, root@),
    {
        let path = String::from_str(root).concat("/").concat(self.id.as_str());
        proof {
            use_type_invariant(self);
            reveal_strlit("/");
            assert("/"@ =~= seq!['/']);
            lemma_valid_id_is_direct_child(root@, self@);
        }
        path
    }
}

/// Whatever the samples are, the identifier that they encode is valid and
/// made of the alphabet's symbols, as long as there is at least one sample.
pub proof fn lemma_encoded_samples_are_valid(samples: Seq<usize>)
    requires
        samples.len() >= 1,
    ensures
        encode_samples(samples).len() == samples.len(),
        is_valid_id(encode_samples(samples)),
        forall|i: int|
            0 <= i < samples.len() ==> in_alphabet(#[trigger] encode_samples(samples)[i]),
{
    let text = encode_samples(samples);
    assert forall|i: int| 0 <= i < text.len() implies in_alphabet(#[trigger] text[i])
        && is_alphanumeric(text[i]) by {
        assert(text[i] == symbol_at(samples[i] as int % 62));
        lemma_alphabet_is_alphanumeric(text[i]);
    }
}

/// Whether `name` is one plain path segment: not empty, without a separator of
/// either kind and without a dot, so that it is neither `.` nor `..` and holds
/// no parent reference.
pub open spec fn is_plain_segment(name: Seq<char>) -> bool {
    &&& name.len() > 0
    &&& forall|i: int|
        0 <= i < name.len() ==> #[trigger] name[i] != '/' && name[i] != '\\' && name[i] != '.'
}

/// Whether `path` names a direct child of `root`: it is `root`, one
/// separator and one plain segment.
pub open spec fn is_direct_child(path: Seq<char>, root: Seq<char>) -> bool {
    &&& path.len() > root.len() + 1
    &&& path.subrange(0, root.len() as int) == root
    &&& path[root.len() as int] == '/'
    &&& is_plain_segment(path.subrange(root.len() as int + 1, path.len() as int))
}

/// A valid identifier is one plain path segment.
pub proof fn lemma_valid_id_is_plain_segment(id: Seq<char>)
    requires
        is_valid_id(id),
    ensures
        is_plain_segment(id),
{
    assert forall|i: int| 0 <= i < id.len() implies #[trigger] id[i] != '/' && id[i] != '\\'
        && id[i] != '.' by {
        assert(is_alphanumeric(id[i]));
    }
}

/// Traversal safety: under any root, the storage path of a valid identifier
/// is a direct child of that root.
pub proof fn lemma_valid_id_is_direct_child(root: Seq<char>, id: Seq<char>)
    requires
        is_valid_id(id),
    ensures
        is_direct_child(storage_path(root, id), root),
{
    let path = storage_path(root, id);
    lemma_valid_id_is_plain_segment(id);
    assert(path.subrange(0, root.len() as int) =~= root);
    assert(path.subrange(root.len() as int + 1, path.len() as int) =~= id);
}

/// One file per identifier: under one root, two identifiers share a storage
/// path only if they are the same identifier.
pub proof fn lemma_storage_path_is_injective(root: Seq<char>, a: Seq<char>, b: Seq<char>)
    requires
        storage_path(root, a) == storage_path(root, b),
    ensures
        a == b,
{
    let start = root.len() as int + 1;
    let path_a = storage_path(root, a);
    let path_b = storage_path(root, b);
    assert(path_a.subrange(start, path_a.len() as int) =~= a);
    assert(path_b.subrange(start, path_b.len() as int) =~= b);
}

} // verus!
