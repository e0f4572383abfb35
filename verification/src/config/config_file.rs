//! Auxiliary files named in the configuration, checked by their extension.
use vstd::prelude::*;
use crate::config::error::{Error, Failure};
use crate::config::yaml_parser::opt_view;
use crate::text::str_eq;

verus! {

/// What an auxiliary file holds.
pub enum FileType {
    /// The YAML configuration (`.yaml` or `.yml`).
    Config,
    /// A jq program (`.jq`).
    Filter,
    /// A JSON document served when a source fails (`.json`).
    Fallback,
}

/// The display name of a file type.
pub open spec fn file_type_name(t: FileType) -> Seq<char> {
    match t {
        FileType::Config => "Config"@,
        FileType::Filter => "Filter"@,
        FileType::Fallback => "Fallback"@,
    }
}

/// Whether `ext` is an extension that files of type `t` may have.
pub open spec fn extension_fits(t: FileType, ext: Seq<char>) -> bool {
    match t {
        FileType::Config => ext == "yaml"@ || ext == "yml"@,
        FileType::Filter => ext == "jq"@,
        FileType::Fallback => ext == "json"@,
    }
}

impl FileType {
    /// The display name of the file type.
    pub fn to_string(&self) -> (res: String)
        ensures
            res@ == file_type_name(*self),
    {
        String::from_str(match self {
            FileType::Config => "Config",
            FileType::Filter => "Filter",
            FileType::Fallback => "Fallback",
        })
    }
}

/// What `std::path::Path::new(path).extension()` gives for `path`, as text.
pub uninterp spec fn path_extension(path: Seq<char>) -> Option<Seq<char>>;

/// `std::path::Path::extension` of `path`, as text: the part of the file name
/// after its last `.` (see its documentation for file names without one or
/// starting with one). The result is named `path_extension`.
#[verifier::external_body]
fn file_extension(path: &str) -> (res: Option<String>)
    ensures
        opt_view(res) == path_extension(path@),
{
    std::path::Path::new(path).extension().map(|e| e.to_string_lossy().into_owned())
}

/// `std::path::Path::is_file`: whether `path` names a regular file now. It
/// looks at the file system, so nothing is stated of the result.
#[verifier::external_body]
fn path_is_file(path: &str) -> (res: bool) {
    std::path::Path::new(path).is_file()
}

/// The message of a file whose extension does not fit its type.
pub open spec fn invalid_extension(t: FileType, path: Seq<char>) -> Seq<char> {
    file_type_name(t) + " file `"@ + path + "` extension invalid."@
}

/// An auxiliary file of a given type.
pub struct ConfigFile<'a> {
    path: &'a str,
    file_type: FileType,
}

impl<'a> ConfigFile<'a> {
    /// The path of the file.
    pub closed spec fn spec_path(&self) -> Seq<char> {
        self.path@
    }

    /// The type of the file.
    pub closed spec fn spec_file_type(&self) -> FileType {
        self.file_type
    }

    /// The path of the file.
    pub fn path(&self) -> (res: &'a str)
        ensures
            res@ == self.spec_path(),
    {
        self.path
    }

    /// The type of the file.
    pub fn file_type(&self) -> (res: &FileType)
        ensures
            *res == self.spec_file_type(),
    {
        &self.file_type
    }

    /// The file at `path_string` of type `file_type`, given whether that path
    /// names a regular file.
    pub fn checked(path_string: &'a str, file_type: FileType, is_file: bool) -> (res: Result<Self, Error>)
        ensures
            is_file <==> res is Ok,
            res matches Ok(c) ==> c.spec_path() == path_string@ && c.spec_file_type() == file_type,
            res matches Err(e) ==> e.shows(Failure::Str("Provied path is not a file."@)),
    {
        if !is_file {
            return Err(Error::Str("Provied path is not a file."));
        }
        Ok(ConfigFile { path: path_string, file_type })
    }

    /// The file at `path_string` of type `file_type`, if that path names a
    /// regular file.
    pub fn new(path_string: &'a str, file_type: FileType) -> (res: Result<Self, Error>)
        ensures
            res matches Ok(c) ==> c.spec_path() == path_string@ && c.spec_file_type() == file_type,
            res matches Err(e) ==> e.shows(Failure::Str("Provied path is not a file."@)),
    {
        let is_file = path_is_file(path_string);
        Self::checked(path_string, file_type, is_file)
    }

    /// Accepts the extension `extension` of this file if it fits the file's
    /// type.
    pub fn accepts_extension(&self, extension: Option<&str>) -> (res: Result<(), Error>)
        ensures
            match extension {
                None => res matches Err(e) && e.shows(Failure::Str("File extension not present."@)),
                Some(ext) => if extension_fits(self.spec_file_type(), ext@) {
                    res is Ok
                } else {
                    res matches Err(e) && e.shows(
                        Failure::Text(invalid_extension(self.spec_file_type(), self.spec_path())),
                    )
                },
            },
    {
        let ext = match extension {
            None => return Err(Error::Str("File extension not present.")),
            Some(ext) => ext,
        };
        let fits = match self.file_type {
            FileType::Config => str_eq(ext, "yaml") || str_eq(ext, "yml"),
            FileType::Filter => str_eq(ext, "jq"),
            FileType::Fallback => str_eq(ext, "json"),
        };
        if fits {
            Ok(())
        } else {
            let mut m = self.file_type.to_string();
            m.append(" file `");
            m.append(self.path);
            m.append("` extension invalid.");
            Err(Error::String(m))
        }
    }

    /// Accepts this file if the extension of its path fits its type; this is
    /// what must hold before the file is read.
    pub fn check_extension(&self) -> (res: Result<(), Error>)
        ensures
            match path_extension(self.spec_path()) {
                None => res matches Err(e) && e.shows(Failure::Str("File extension not present."@)),
                Some(ext) => if extension_fits(self.spec_file_type(), ext) {
                    res is Ok
                } else {
                    res matches Err(e) && e.shows(
                        Failure::Text(invalid_extension(self.spec_file_type(), self.spec_path())),
                    )
                },
            },
    {
        let ext = file_extension(self.path);
        match &ext {
            Some(e) => self.accepts_extension(Some(e.as_str())),
            None => self.accepts_extension(None),
        }
    }
}

} // verus!
