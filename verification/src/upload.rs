//! An uploaded file as the service holds it before it is stored.

use vstd::prelude::*;

verus! {

/// The name that the client gave to an uploaded file.
pub struct FileNameWrapper(String);

impl Clone for FileNameWrapper {
    fn clone(&self) -> (copy: FileNameWrapper)
        ensures
            copy@ == self@,
    {
        FileNameWrapper(self.0.clone())
    }
}

impl View for FileNameWrapper {
    type V = Seq<char>;

    closed spec fn view(&self) -> Seq<char> {
        self.0@
    }
}

impl FileNameWrapper {
    /// Wraps a file name.
    pub fn new(name: String) -> (wrapper: FileNameWrapper)
        ensures
            wrapper@ == name@,
    {
        FileNameWrapper(name)
    }

    /// The file name as text.
    pub fn as_str(&self) -> (text: &str)
        ensures
            text@ == self@,
    {
        self.0.as_str()
    }
}

/// The content type that the client declared for an uploaded file.
pub struct ContentTypeWrapper(String);

impl View for ContentTypeWrapper {
    type V = Seq<char>;

    closed spec fn view(&self) -> Seq<char> {
        self.0@
    }
}

impl ContentTypeWrapper {
    /// Wraps a content type, written as text.
    pub fn new(content_type: String) -> (wrapper: ContentTypeWrapper)
        ensures
            wrapper@ == content_type@,
    {
        ContentTypeWrapper(content_type)
    }

    /// The content type as text.
    pub fn as_str(&self) -> (text: &str)
        ensures
            text@ == self@,
    {
        self.0.as_str()
    }
}

/// One uploaded file: its bytes, and what the client said of them.
pub struct File {
    file_name: Option<FileNameWrapper>,
    content_type: ContentTypeWrapper,
    data: Vec<u8>,
}

impl File {
    /// The client's name for the file, where it gave one.
    pub closed spec fn name_text(&self) -> Option<Seq<char>> {
        match self.file_name {
            Some(name) => Some(name@),
            None => None,
        }
    }

    /// The declared content type.
    pub closed spec fn content_type_text(&self) -> Seq<char> {
        self.content_type@
    }

    /// The file's bytes.
    pub closed spec fn bytes(&self) -> Seq<u8> {
        self.data@
    }

    /// Puts an uploaded file together from its parts.
    pub fn new(
        file_name: Option<FileNameWrapper>,
        content_type: ContentTypeWrapper,
        data: Vec<u8>,
    ) -> (file: File)
        ensures
            file.name_text() == (match file_name {
                Some(name) => Some(name@),
                None => None,
            }),
            file.content_type_text() == content_type@,
            file.bytes() == data@,
    {
        File { file_name, content_type, data }
    }

    /// The client's name for the file, where it gave one.
    pub fn file_name(&self) -> (name: Option<&FileNameWrapper>)
        ensures
            name is Some <==> self.name_text() is Some,
            name matches Some(wrapper) ==> Some(wrapper@) == self.name_text(),
    {
        self.file_name.as_ref()
    }

    /// The file's bytes, as they are to be stored.
    pub fn data(&self) -> (data: &Vec<u8>)
        ensures
            data@ == self.bytes(),
    {
        &self.data
    }

    /// The declared content type.
    pub fn content_type(&self) -> (content_type: &ContentTypeWrapper)
        ensures
            content_type@ == self.content_type_text(),
    {
        &self.content_type
    }
}

/// The form that carries an upload: one file.
pub struct UploadFile {
    pub file: File,
}

impl UploadFile {
    /// The name that the client gave to the uploaded file, if it gave one.
    pub fn orig_file_name(&self) -> (name: Option<String>)
        ensures
            name is Some <==> self.file.name_text() is Some,
            name matches Some(text) ==> Some(text@) == self.file.name_text(),
    {
        match &self.file.file_name {
            Some(wrapper) => Some(wrapper.0.clone()),
            None => None,
        }
    }
}

} // verus!
