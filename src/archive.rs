//! The list of files that a data archive is packed from, and the alignment
//! of file data inside it.
use vstd::prelude::*;
use vstd::string::*;
use crate::text::str_eq;

verus! {

/// The most bytes a file name in an archive may have.
pub const FILE_NAME_BYTES: usize = 256;

/// Where file data is aligned.
pub const ALIGNMENT: u64 = 0x1000;

/// The mask of the address bits below the alignment.
pub const ALIGNMENT_MASK: u64 = 0xfff;

/// An address rounded up to the next multiple of the alignment.
pub open spec fn aligned(a: int) -> int {
    if a % 0x1000 == 0 {
        a
    } else {
        a + 0x1000 - a % 0x1000
    }
}

/// Rounds an address up to the next multiple of the alignment.
pub fn align_addr(a: u64) -> (r: u64)
    requires
        aligned(a as int) <= u64::MAX,
    ensures
        r as int == aligned(a as int),
        r % 0x1000 == 0,
        a <= r < a + 0x1000,
{
    let low_bits = a & ALIGNMENT_MASK;
    assert(low_bits == a % 0x1000) by (bit_vector)
        requires
            low_bits == a & 0xfff,
    ;
    if low_bits == 0 {
        a
    } else {
        a + ALIGNMENT - low_bits
    }
}

/// A file to pack: its name in the archive and where its content is.
#[derive(Debug, Clone, PartialEq, Eq)]
pub struct File {
    pub name: String,
    pub path: String,
}

/// Why a file cannot be added to an archive.
#[derive(Debug, Eq, PartialEq)]
pub enum AddFileError {
    EmptyNameNotAllowed,
    NameConflict,
    FileNameTooLong(String),
}

/// The files an archive is packed from, in the order they were added.
pub struct Archive {
    files: Vec<File>,
}

impl Archive {
    /// The names of the files, in order.
    pub closed spec fn names(&self) -> Seq<Seq<char>> {
        self.files@.map_values(|f: File| f.name@)
    }

    /// The files, in order.
    pub closed spec fn spec_files(&self) -> Seq<File> {
        self.files@
    }

    /// An archive with no files.
    pub fn new() -> (r: Archive)
        ensures
            r.spec_files() == Seq::<File>::empty(),
    {
        Archive { files: Vec::new() }
    }

    /// The files, in order.
    pub fn files(&self) -> (r: &Vec<File>)
        ensures
            r@ == self.spec_files(),
    {
        &self.files
    }

    /// Adds a file under `name`. The name must not be empty, must not be in
    /// use already, and must fit in the archive's name field.
    pub fn add_file(&mut self, name: &str, path: &str) -> (r: Result<(), AddFileError>)
        ensures
            name@.len() == 0 ==> r == Err::<(), AddFileError>(AddFileError::EmptyNameNotAllowed),
            name@.len() != 0 && (exists|i: int|
                0 <= i < old(self).spec_files().len() && #[trigger] old(self).spec_files()[i].name@ == name@)
                ==> r == Err::<(), AddFileError>(AddFileError::NameConflict),
            name@.len() != 0 && !(exists|i: int|
                0 <= i < old(self).spec_files().len() && #[trigger] old(self).spec_files()[i].name@ == name@)
                && name.spec_bytes().len() > FILE_NAME_BYTES ==> (r matches Err(
                AddFileError::FileNameTooLong(n),
            ) && n@ == name@),
            r is Ok <==> (name@.len() != 0 && !(exists|i: int|
                0 <= i < old(self).spec_files().len() && #[trigger] old(self).spec_files()[i].name@ == name@)
                && name.spec_bytes().len() <= FILE_NAME_BYTES),
            r is Ok ==> final(self).spec_files().len() == old(self).spec_files().len() + 1
                && final(self).spec_files().drop_last() == old(self).spec_files()
                && final(self).spec_files().last().name@ == name@
                && final(self).spec_files().last().path@ == path@,
            r is Err ==> final(self).spec_files() == old(self).spec_files(),
    {
        if name.unicode_len() == 0 {
            return Err(AddFileError::EmptyNameNotAllowed);
        }
        let n = self.files.len();
        let mut i: usize = 0;
        while i < n
            invariant
                n == self.files@.len(),
                i <= n,
                name@.len() != 0,
                forall|j: int| 0 <= j < i ==> self.files@[j].name@ != name@,
            decreases n - i,
        {
            if str_eq(self.files[i].name.as_str(), name) {
                assert(self.spec_files()[i as int].name@ == name@);
                return Err(AddFileError::NameConflict);
            }
            i = i + 1;
        }
        let byte_len = name.as_bytes().len();
        if byte_len > FILE_NAME_BYTES {
            return Err(AddFileError::FileNameTooLong(String::from_str(name)));
        }
        self.files.push(File { name: String::from_str(name), path: String::from_str(path) });
        assert(self.files@.drop_last() =~= old(self).files@);
        Ok(())
    }
}

} // verus!
