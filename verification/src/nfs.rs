//! Files as the network file system keeps them: the metadata of their
//! current version, and for versioned files where the older versions are.

use crate::resp::XOR_NAME_LEN;
use self_encryption::DataMap;
use vstd::prelude::*;

verus! {

/// The self-encryption data map of a file's content, as the
/// `self_encryption` crate defines it. Its contents are carried, not read.
#[verifier::external_type_specification]
#[verifier::external_body]
pub struct ExDataMap(self_encryption::DataMap);

/// `Clone::clone` of `self_encryption::DataMap`, which `derive` writes
/// field by field over plain data (chunk infos and an optional level):
/// claimed to return a value equal to the original.
pub assume_specification[ <self_encryption::DataMap as Clone>::clone ](data_map: &self_encryption::DataMap) -> (r: self_encryption::DataMap)
    ensures
        r == *data_map,
;

/// Identifies a piece of data on the network by its kind and name.
#[derive(Clone, Copy, Debug, PartialEq, Eq, PartialOrd, Ord, Hash)]
pub enum DataIdentifier {
    /// Structured data: name and type tag.
    Structured([u8; XOR_NAME_LEN], u64),
    /// Immutable data: name.
    Immutable([u8; XOR_NAME_LEN]),
    /// Public appendable data: name.
    PubAppendable([u8; XOR_NAME_LEN]),
    /// Private appendable data: name.
    PrivAppendable([u8; XOR_NAME_LEN]),
}

/// Metadata of one version of a file.
#[derive(Clone, Debug, PartialEq, Eq, PartialOrd, Ord)]
pub struct FileMetadata {
    /// Name of the file.
    pub name: String,
    /// Metadata the user attached to the file.
    pub user_metadata: Vec<u8>,
    /// Data map of the file's content, from self-encryption.
    pub data_map: DataMap,
}

impl FileMetadata {
    /// Metadata of a file called `name`, with the user's metadata and the
    /// data map of its content.
    pub fn new(name: String, user_metadata: Vec<u8>, data_map: DataMap) -> (r: FileMetadata)
        ensures
            r.name == name,
            r.user_metadata == user_metadata,
            r.data_map == data_map,
    {
        FileMetadata { name, user_metadata, data_map }
    }

    /// Name of the file.
    pub fn name(&self) -> (r: &str)
        ensures
            r@ == self.name@,
    {
        self.name.as_str()
    }

    /// Metadata the user attached to the file.
    pub fn user_metadata(&self) -> (r: &[u8])
        ensures
            r@ == self.user_metadata@,
    {
        self.user_metadata.as_slice()
    }

    /// Data map of the file's content.
    pub fn datamap(&self) -> (r: &DataMap)
        ensures
            *r == self.data_map,
    {
        &self.data_map
    }
}

/// Representation of a File to be put into the network. Could be any kind of file: text, music, video, etc.
#[derive(Clone, PartialEq, Eq, PartialOrd, Ord)]
pub enum File {
    /// Represents unversioned file
    Unversioned(FileMetadata),
    /// Represents versioned file that contains a pointer to a list of previous versions and
    /// metadata for the current version.
    Versioned {
        /// Pointer to a list of versions (should be DataIdentifier::Immutable, contains
        /// Vec<FileMetadata>)
        ptr_versions: DataIdentifier,
        /// Total number of versions for this file
        num_of_versions: u64,
        /// Metadata for the current version
        latest_version: FileMetadata,
    },
}

impl File {
    /// The metadata of the file's current version.
    pub open spec fn current_metadata(self) -> FileMetadata {
        match self {
            File::Unversioned(metadata) => metadata,
            File::Versioned { latest_version, .. } => latest_version,
        }
    }

    /// The file with the metadata of its current version replaced by
    /// `metadata`, and all else kept.
    pub open spec fn with_current_metadata(self, metadata: FileMetadata) -> File {
        match self {
            File::Unversioned(_) => File::Unversioned(metadata),
            File::Versioned { ptr_versions, num_of_versions, .. } => File::Versioned {
                ptr_versions,
                num_of_versions,
                latest_version: metadata,
            },
        }
    }

    /// Get metadata associated with the file
    pub fn metadata(&self) -> (r: &FileMetadata)
        ensures
            *r == self.current_metadata(),
            match *self {
                File::Unversioned(m) => *r == m,
                File::Versioned { latest_version, .. } => *r == latest_version,
            },
    {
        match self {
            File::Unversioned(metadata) => metadata,
            File::Versioned { latest_version, .. } => latest_version,
        }
    }

    /// Get metadata associated with the file, with mutability to allow updation
    pub fn metadata_mut(&mut self) -> (r: &mut FileMetadata)
        ensures
            *r == old(self).current_metadata(),
            *final(self) == old(self).with_current_metadata(*final(r)),
            match *old(self) {
                File::Unversioned(m) => *r == m && *final(self) == File::Unversioned(*final(r)),
                File::Versioned { ptr_versions, num_of_versions, latest_version } => *r
                    == latest_version && *final(self) == (File::Versioned {
                    ptr_versions,
                    num_of_versions,
                    latest_version: *final(r),
                }),
            },
    {
        match self {
            File::Unversioned(id) => id,
            File::Versioned { latest_version, .. } => latest_version,
        }
    }

    /// Get a name for the current version of the file
    pub fn name(&self) -> (r: &str)
        ensures
            r@ == self.current_metadata().name@,
            match *self {
                File::Unversioned(m) => r@ == m.name@,
                File::Versioned { latest_version, .. } => r@ == latest_version.name@,
            },
    {
        self.metadata().name()
    }

    /// Get the data-map of the File. This is generated by passing the contents of the File to
    /// self-encryption
    pub fn datamap(&self) -> (r: &DataMap)
        ensures
            *r == self.current_metadata().data_map,
            match *self {
                File::Unversioned(m) => *r == m.data_map,
                File::Versioned { latest_version, .. } => *r == latest_version.data_map,
            },
    {
        self.metadata().datamap()
    }
}

/// Writing a file's current metadata and reading it back gives what was
/// written, and writing back what was read leaves the file as it was: the
/// metadata is the one place `metadata_mut` changes.
pub proof fn file_metadata_write_read(file: File, metadata: FileMetadata)
    ensures
        file.with_current_metadata(metadata).current_metadata() == metadata,
        file.with_current_metadata(file.current_metadata()) == file,
        file.with_current_metadata(metadata) is Versioned <==> file is Versioned,
{
}

/// The current metadata of an unversioned file is its metadata, and that of
/// a versioned file is its latest version's; replacing it keeps the
/// variant, the versions pointer and the version count.
pub proof fn file_current_metadata_fields(
    metadata: FileMetadata,
    ptr_versions: DataIdentifier,
    num_of_versions: u64,
    latest_version: FileMetadata,
)
    ensures
        File::Unversioned(metadata).current_metadata() == metadata,
        (File::Versioned { ptr_versions, num_of_versions, latest_version }).current_metadata()
            == latest_version,
        File::Unversioned(latest_version).with_current_metadata(metadata) == File::Unversioned(
            metadata,
        ),
        (File::Versioned { ptr_versions, num_of_versions, latest_version }).with_current_metadata(
            metadata,
        ) == (File::Versioned { ptr_versions, num_of_versions, latest_version: metadata }),
{
}

} // verus!
