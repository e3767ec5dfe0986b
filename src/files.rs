use vstd::prelude::*;

use crate::chat_data::opt_view;

verus! {

/// Why an upload could not be taken in.
#[derive(Debug, PartialEq, Eq)]
pub enum IngestError {
    /// A part declared no filename.
    MissingFilename,
    /// A part's filename could leave the upload directory: it is empty, `.`,
    /// `..`, or holds a path separator.
    UnsafeFilename,
    /// Writing a part to disk failed.
    Io(String),
}

pub open spec fn ingest_error_text(e: IngestError) -> Seq<char> {
    match e {
        IngestError::MissingFilename => "No filename"@,
        IngestError::UnsafeFilename => "Unsafe filename"@,
        IngestError::Io(s) => s@,
    }
}

/// A file taken in from an upload: the name it was sent under and where it
/// was stored.
pub struct StoredFile {
    pub original_filename: String,
    pub path: String,
}

pub open spec fn stored_view(f: StoredFile) -> (Seq<char>, Seq<char>) {
    (f.original_filename@, f.path@)
}

pub open spec fn batch_view(b: Seq<StoredFile>) -> Seq<(Seq<char>, Seq<char>)> {
    b.map_values(|f: StoredFile| stored_view(f))
}

/// A filename that names an entry directly inside the upload directory.
pub open spec fn safe_filename(name: Seq<char>) -> bool {
    &&& name.len() > 0
    &&& name != "."@
    &&& name != ".."@
    &&& forall|i: int| 0 <= i < name.len() ==> name[i] != '/' && name[i] != '\\'
}

/// Where a part with the given declared filename is stored under `root`.
pub open spec fn destination_of(root: Seq<char>, filename: Option<Seq<char>>) -> Result<(Seq<char>, Seq<char>), IngestError> {
    match filename {
        None => Err(IngestError::MissingFilename),
        Some(name) => if safe_filename(name) {
            Ok((name, root + "/"@ + name))
        } else {
            Err(IngestError::UnsafeFilename)
        },
    }
}

/// The batch that parts with these declared filenames, in this order, give,
/// or the error of the first part that is refused.
pub open spec fn ingest_outcome(root: Seq<char>, filenames: Seq<Option<Seq<char>>>) -> Result<Seq<(Seq<char>, Seq<char>)>, IngestError>
    decreases filenames.len(),
{
    if filenames.len() == 0 {
        Ok(Seq::empty())
    } else {
        match ingest_outcome(root, filenames.drop_last()) {
            Err(e) => Err(e),
            Ok(batch) => match destination_of(root, filenames.last()) {
                Err(e) => Err(e),
                Ok(f) => Ok(batch.push(f)),
            },
        }
    }
}

/// Takes in the parts of a multipart upload one at a time, in arrival order.
/// The first refused part fails the whole batch.
pub struct UploadIngestor {
    root: String,
    stored: Vec<StoredFile>,
    failure: Option<IngestError>,
    filenames: Ghost<Seq<Option<Seq<char>>>>,
}

impl UploadIngestor {
    /// The upload directory.
    pub closed spec fn root(&self) -> Seq<char> {
        self.root@
    }

    /// The declared filenames of the parts seen so far, in arrival order.
    pub closed spec fn filenames(&self) -> Seq<Option<Seq<char>>> {
        self.filenames@
    }

    /// The batch, or the failure, is what the filenames seen so far give.
    pub closed spec fn wf(&self) -> bool {
        &&& !(self.failure matches Some(IngestError::Io(_)))
        &&& ingest_outcome(self.root@, self.filenames@) == match self.failure {
            Some(e) => Err(e),
            None => Ok::<Seq<(Seq<char>, Seq<char>)>, IngestError>(batch_view(self.stored@)),
        }
    }

    /// An ingestor that stores parts under `root` and has seen none yet.
    pub fn new(root: String) -> (r: Self)
        ensures
            r.wf(),
            r.root() == root@,
            r.filenames() == Seq::<Option<Seq<char>>>::empty(),
    {
        let r = UploadIngestor { root, stored: Vec::new(), failure: None, filenames: Ghost(Seq::empty()) };
        assert(batch_view(r.stored@) =~= Seq::empty());
        r
    }

    /// Takes in the next part, whose declared filename is `filename`. On
    /// success returns the path the part's bytes are to be written to.
    pub fn accept(&mut self, filename: Option<String>) -> (r: Result<String, IngestError>)
        requires
            old(self).wf(),
        ensures
            final(self).wf(),
            final(self).root() == old(self).root(),
            final(self).filenames() == old(self).filenames().push(opt_view(filename)),
            match r {
                Ok(path) => ingest_outcome(old(self).root(), final(self).filenames()) is Ok
                    && destination_of(old(self).root(), opt_view(filename)) == Ok::<(Seq<char>, Seq<char>), IngestError>(
                        (filename->Some_0@, path@),
                    ),
                Err(e) => ingest_outcome(old(self).root(), final(self).filenames()) == Err::<Seq<(Seq<char>, Seq<char>)>, IngestError>(e),
            },
    {
        let ghost prev = self.filenames@;
        self.filenames = Ghost(prev.push(opt_view(filename)));
        assert(self.filenames@.drop_last() =~= prev);
        if let Some(e) = &self.failure {
            return Err(e.clone_error());
        }
        match filename {
            None => {
                self.failure = Some(IngestError::MissingFilename);
                Err(IngestError::MissingFilename)
            },
            Some(name) => {
                if is_safe_filename(&name) {
                    let path = self.root.clone().concat("/").concat(name.as_str());
                    proof {
                        reveal_strlit("/");
                    }
                    let ghost old_stored = self.stored@;
                    self.stored.push(StoredFile { original_filename: name, path: path.clone() });
                    assert(batch_view(self.stored@) =~= batch_view(old_stored).push(
                        (self.stored@.last().original_filename@, path@),
                    ));
                    Ok(path)
                } else {
                    self.failure = Some(IngestError::UnsafeFilename);
                    Err(IngestError::UnsafeFilename)
                }
            },
        }
    }

    /// The stored batch, or the error of the first refused part.
    pub fn finish(self) -> (r: Result<Vec<StoredFile>, IngestError>)
        requires
            self.wf(),
        ensures
            match r {
                Ok(b) => ingest_outcome(self.root(), self.filenames()) == Ok::<Seq<(Seq<char>, Seq<char>)>, IngestError>(batch_view(b@)),
                Err(e) => ingest_outcome(self.root(), self.filenames()) == Err::<Seq<(Seq<char>, Seq<char>)>, IngestError>(e),
            },
    {
        match self.failure {
            Some(e) => Err(e),
            None => Ok(self.stored),
        }
    }
}

impl IngestError {
    /// A copy of a refusal, which carries no text.
    fn clone_error(&self) -> (r: IngestError)
        requires
            !(*self is Io),
        ensures
            r == *self,
    {
        match self {
            IngestError::MissingFilename => IngestError::MissingFilename,
            _ => IngestError::UnsafeFilename,
        }
    }

    /// The error as text.
    pub fn describe(&self) -> (r: String)
        ensures
            r@ == ingest_error_text(*self),
    {
        match self {
            IngestError::MissingFilename => String::from_str("No filename"),
            IngestError::UnsafeFilename => String::from_str("Unsafe filename"),
            IngestError::Io(s) => s.clone(),
        }
    }
}

/// Where each of `names` is stored under `root`, in the same order.
pub open spec fn stored_under(root: Seq<char>, names: Seq<Seq<char>>) -> Seq<(Seq<char>, Seq<char>)> {
    names.map_values(|n: Seq<char>| (n, root + "/"@ + n))
}

pub open spec fn declared(names: Seq<Seq<char>>) -> Seq<Option<Seq<char>>> {
    names.map_values(|n: Seq<char>| Some(n))
}

/// An upload whose parts all declare acceptable filenames is taken in whole:
/// the batch holds exactly one entry per part, in arrival order, each stored
/// under its declared name directly inside the upload directory.
pub proof fn lemma_named_parts_all_stored(root: Seq<char>, names: Seq<Seq<char>>)
    requires
        forall|i: int| 0 <= i < names.len() ==> safe_filename(#[trigger] names[i]),
    ensures
        ingest_outcome(root, declared(names)) == Ok::<Seq<(Seq<char>, Seq<char>)>, IngestError>(stored_under(root, names)),
        stored_under(root, names).len() == names.len(),
    decreases names.len(),
{
    if names.len() == 0 {
        assert(stored_under(root, names) =~= Seq::empty());
    } else {
        let init = names.drop_last();
        lemma_named_parts_all_stored(root, init);
        assert(safe_filename(names[names.len() - 1]));
        assert(declared(names).last() == Some(names.last()));
        assert(declared(names).drop_last() =~= declared(init));
        assert(stored_under(root, init).push((names.last(), root + "/"@ + names.last())) =~= stored_under(root, names));
    }
}

/// A part with no filename fails the whole upload with `MissingFilename`
/// when the parts before it declare acceptable filenames: no batch comes out,
/// whatever follows.
pub proof fn lemma_missing_filename_rejects(root: Seq<char>, filenames: Seq<Option<Seq<char>>>, k: int)
    requires
        0 <= k < filenames.len(),
        filenames[k] is None,
        forall|i: int| 0 <= i < k ==> (#[trigger] filenames[i] matches Some(n) && safe_filename(n)),
    ensures
        ingest_outcome(root, filenames) == Err::<Seq<(Seq<char>, Seq<char>)>, IngestError>(IngestError::MissingFilename),
    decreases filenames.len(),
{
    let init = filenames.drop_last();
    if k == filenames.len() - 1 {
        let names = Seq::new(init.len(), |i: int| init[i]->Some_0);
        assert(declared(names) =~= init);
        lemma_named_parts_all_stored(root, names);
    } else {
        lemma_missing_filename_rejects(root, init, k);
    }
}

/// Tells whether `name` names an entry directly inside the upload directory.
pub fn is_safe_filename(name: &String) -> (r: bool)
    ensures
        r == safe_filename(name@),
{
    let s = name.as_str();
    let n = s.unicode_len();
    if n == 0 {
        return false;
    }
    proof {
        reveal_strlit(".");
        reveal_strlit("..");
    }
    let dot = String::from_str(".");
    let dotdot = String::from_str("..");
    if *name == dot || *name == dotdot {
        return false;
    }
    let mut i: usize = 0;
    while i < n
        invariant
            s@ == name@,
            n == name@.len(),
            i <= n,
            forall|j: int| 0 <= j < i ==> name@[j] != '/' && name@[j] != '\\',
        decreases n - i,
    {
        let c = s.get_char(i);
        if c == '/' || c == '\\' {
            return false;
        }
        i = i + 1;
    }
    true
}

} // verus!
