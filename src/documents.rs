//! Listing documents and saving one of them: the reader and saver ports, their errors,
//! and the orchestration that reclassifies every adapter error for the caller.
use crate::auth::{AuthInfo, AuthReader, AuthRetrieveError};
use crate::cause::with_context;
use vstd::prelude::*;

verus! {

/// Options for listing a page of documents
#[derive(Debug)]
pub struct ListOptions {
    pub page: u32,
    pub results_per_page: u32,
    pub own_documents_only: bool,
}

impl Default for ListOptions {
    fn default() -> (r: Self)
        ensures
            r.page == 0,
            r.results_per_page == 15,
            !r.own_documents_only,
    {
        ListOptions { page: 0, results_per_page: 15, own_documents_only: false }
    }
}

/// Entry in the document list
#[derive(Debug)]
pub struct ListEntry {
    pub id: String,
    pub title: String,
}

/// Error produced by an implementor of [DocumentReader] when trying to fetch a list of documents
/// from the adapter
#[derive(Debug)]
pub enum ReaderListError {
    BadCredentials,
    AdapterError(anyhow::Error),
}

/// Error produced by an implementer of [DocumentReader] which explains why fetching a single
/// document went awry
#[derive(Debug)]
pub enum DocRetrieveError {
    BadCredentials,
    DocumentNotFound,
    AdapterError(anyhow::Error),
}

/// Options for listing documents for a [DocumentReader]
#[derive(Debug)]
pub struct ReaderListOptions {
    pub offset: u32,
    pub limit: u32,
    pub user: Option<String>,
}

impl View for ReaderListOptions {
    /// Offset, limit, and the id of the author the listing is restricted to.
    type V = (u32, u32, Option<Seq<char>>);

    open spec fn view(&self) -> (u32, u32, Option<Seq<char>>) {
        (
            self.offset,
            self.limit,
            match self.user {
                Some(u) => Some(u@),
                None => None,
            },
        )
    }
}

/// Raw markdown content of a document
#[derive(Debug)]
pub struct DocContent {
    pub id: String,
    pub title: String,
    pub text: String,
}

/// Something that can read sets of GetOutline documents
pub trait DocumentReader {
    /// Holds of each answer that this reader may give to the listing query `query`.
    /// An adapter that states nothing of its answers admits every one.
    closed spec fn list_answer(
        &self,
        query: (u32, u32, Option<Seq<char>>),
        r: Result<Vec<ListEntry>, ReaderListError>,
    ) -> bool {
        true
    }

    /// Holds of each answer that this reader may give when asked for the document `document_id`.
    /// An adapter that states nothing of its answers admits every one.
    closed spec fn retrieve_answer(&self, document_id: Seq<char>, r: Result<DocContent, DocRetrieveError>) -> bool {
        true
    }

    /// List documents in GetOutline
    fn list(&self, list_opts: &ReaderListOptions) -> (r: Result<Vec<ListEntry>, ReaderListError>)
        ensures
            self.list_answer(list_opts@, r),
    ;

    /// Get a specific document from GetOutline
    fn retrieve_one(&self, document_id: &str) -> (r: Result<DocContent, DocRetrieveError>)
        ensures
            self.retrieve_answer(document_id@, r),
    ;
}

/// Errors that occur when trying to fulfill the "list" business logic
#[derive(Debug)]
pub enum ListError {
    BadCredentials,
    CouldNotGetAuth(anyhow::Error),
    CouldNotListDocuments(anyhow::Error),
}

/// The reader query for a page of `list_opts`, restricted to the author `user` if one is given.
pub open spec fn query_of(list_opts: ListOptions, user: Option<Seq<char>>) -> (u32, u32, Option<Seq<char>>) {
    ((list_opts.page * list_opts.results_per_page) as u32, list_opts.results_per_page, user)
}

/// How the caller-facing outcome `r` of a listing follows from the reader's answer `answer`.
pub open spec fn listing_outcome(
    answer: Result<Vec<ListEntry>, ReaderListError>,
    r: Result<Vec<ListEntry>, ListError>,
) -> bool {
    match answer {
        Ok(entries) => r == Ok::<Vec<ListEntry>, ListError>(entries),
        Err(ReaderListError::BadCredentials) => r is Err && r->Err_0 is BadCredentials,
        Err(ReaderListError::AdapterError(_)) => r is Err && r->Err_0 is CouldNotListDocuments,
    }
}

/// Translates a page of [ListOptions] into the reader's offset and limit, restricted to the
/// documents of `user` when one is given.
/// The offset of the page must fit in 32 bits.
pub fn reader_list_options(list_opts: &ListOptions, user: Option<String>) -> (r: ReaderListOptions)
    requires
        list_opts.page * list_opts.results_per_page <= u32::MAX,
    ensures
        r.offset == list_opts.page * list_opts.results_per_page,
        r.limit == list_opts.results_per_page,
        r.user == user,
        r@ == query_of(
            *list_opts,
            match user {
                Some(id) => Some(id@),
                None => None,
            },
        ),
{
    ReaderListOptions {
        offset: list_opts.page * list_opts.results_per_page,
        limit: list_opts.results_per_page,
        user,
    }
}

/// Reclassifies the reader's answer to a listing query for the caller.
pub fn listing_result(answer: Result<Vec<ListEntry>, ReaderListError>) -> (r: Result<Vec<ListEntry>, ListError>)
    ensures
        listing_outcome(answer, r),
{
    match answer {
        Ok(entries) => Ok(entries),
        Err(ReaderListError::BadCredentials) => Err(ListError::BadCredentials),
        Err(ReaderListError::AdapterError(err)) => Err(
            ListError::CouldNotListDocuments(with_context(err, "Fetching the list of documents failed")),
        ),
    }
}

/// Reclassifies a failed lookup of the current user for the caller.
pub fn auth_lookup_failure(err: AuthRetrieveError) -> (r: ListError)
    ensures
        r is CouldNotGetAuth,
{
    match err {
        AuthRetrieveError::AdapterError(cause) => ListError::CouldNotGetAuth(
            with_context(cause, "Tried to read authentication information while fetching document list"),
        ),
    }
}

/// List GetOutline documents: the page that `list_opts` asks for, in the order the reader
/// gave it. The current user is looked up only for a listing of one's own documents.
/// The offset of the page must fit in 32 bits.
pub fn list(
    auth_reader: &impl AuthReader,
    doc_reader: &impl DocumentReader,
    list_opts: &ListOptions,
) -> (r: Result<Vec<ListEntry>, ListError>)
    requires
        list_opts.page * list_opts.results_per_page <= u32::MAX,
    ensures
        !list_opts.own_documents_only ==> exists|answer|
            #![auto]
            doc_reader.list_answer(query_of(*list_opts, None), answer)
                && listing_outcome(answer, r),
        list_opts.own_documents_only ==> exists|auth: Result<AuthInfo, AuthRetrieveError>|
            #![auto]
            auth_reader.current_answer(auth) && match auth {
                Err(_) => r is Err && r->Err_0 is CouldNotGetAuth,
                Ok(info) => exists|answer|
                    #![auto]
                    doc_reader.list_answer(query_of(*list_opts, Some(info.user.id@)), answer)
                        && listing_outcome(answer, r),
            },
{
    let user = if list_opts.own_documents_only {
        match auth_reader.current() {
            Ok(auth_info) => Some(auth_info.user.id),
            Err(err) => {
                return Err(auth_lookup_failure(err));
            },
        }
    } else {
        None
    };
    let reader_list_opts = reader_list_options(list_opts, user);
    let answer = doc_reader.list(&reader_list_opts);
    listing_result(answer)
}

/// DocumentSaver adapter error reporting a save failure
#[derive(Debug)]
pub enum SaveError {
    TargetWithSameNameExists { name: String },
    AdapterError(anyhow::Error),
}

/// Something that can save documents from GetOutline
pub trait DocumentSaver {
    /// Holds of each answer that this saver may give when asked to save `content` as `name`.
    /// An adapter that states nothing of its answers admits every one.
    closed spec fn save_answer(&self, content: Seq<char>, name: Seq<char>, r: Result<(), SaveError>) -> bool {
        true
    }

    /// Save the [content] of a document in a place referenced by [name]; something that
    /// already exists under [name] is reported, never overwritten
    fn save_document(&self, content: &str, name: &str) -> (r: Result<(), SaveError>)
        ensures
            self.save_answer(content@, name@, r),
    ;
}

/// Options for retrieving a document with [retrieve]
pub struct RetrieveOptions<'refs> {
    pub suggested_name: Option<&'refs str>,
}

impl<'refs> Default for RetrieveOptions<'refs> {
    fn default() -> (r: Self)
        ensures
            r.suggested_name is None,
    {
        RetrieveOptions { suggested_name: None }
    }
}

/// Error representing things going wrong when retrieving and saving a document
#[derive(Debug)]
pub enum RetrieveError {
    DocumentDoesNotExist { requested_id: String },
    BadAuth,
    DocumentRetrieveFailed(anyhow::Error),
    SameNameCouldNotSave { name: String },
    DocumentSaveFailed(anyhow::Error),
}

/// Whether `name` ends in ".md", in any mix of upper and lower case.
pub open spec fn has_md_extension(name: Seq<char>) -> bool {
    let n = name.len();
    &&& n >= 3
    &&& name[n - 3] == '.'
    &&& (name[n - 2] == 'm' || name[n - 2] == 'M')
    &&& (name[n - 1] == 'd' || name[n - 1] == 'D')
}

/// `name` itself if it has the ".md" extension, else `name` followed by ".md".
pub open spec fn with_md_extension(name: Seq<char>) -> Seq<char> {
    if has_md_extension(name) {
        name
    } else {
        name + seq!['.', 'm', 'd']
    }
}

/// The name a document titled `title` is saved under: the suggested name if there is one,
/// else the title, with the ".md" extension.
pub open spec fn save_name_for(suggested_name: Option<Seq<char>>, title: Seq<char>) -> Seq<char> {
    with_md_extension(
        match suggested_name {
            Some(name) => name,
            None => title,
        },
    )
}

/// The suggested name of `options`, as characters.
pub open spec fn suggested_name_of(options: RetrieveOptions) -> Option<Seq<char>> {
    match options.suggested_name {
        Some(name) => Some(name@),
        None => None,
    }
}

/// How the caller-facing outcome `r` follows from the reader failing with `err` to
/// retrieve the document `document_id`.
pub open spec fn retrieve_failure_outcome(
    document_id: Seq<char>,
    err: DocRetrieveError,
    r: Result<(), RetrieveError>,
) -> bool {
    match err {
        DocRetrieveError::DocumentNotFound => r is Err && r->Err_0 is DocumentDoesNotExist
            && r->Err_0->requested_id@ == document_id,
        DocRetrieveError::BadCredentials => r is Err && r->Err_0 is BadAuth,
        DocRetrieveError::AdapterError(cause) => r == Err::<(), RetrieveError>(
            RetrieveError::DocumentRetrieveFailed(cause),
        ),
    }
}

/// How the caller-facing outcome `r` follows from the saver's answer `answer` to saving
/// under `name`.
pub open spec fn save_outcome(name: Seq<char>, answer: Result<(), SaveError>, r: Result<(), RetrieveError>) -> bool {
    match answer {
        Ok(()) => r is Ok,
        Err(SaveError::TargetWithSameNameExists { .. }) => r is Err && r->Err_0 is SameNameCouldNotSave
            && r->Err_0->name@ == name,
        Err(SaveError::AdapterError(cause)) => r == Err::<(), RetrieveError>(
            RetrieveError::DocumentSaveFailed(cause),
        ),
    }
}

/// Deriving a save name is idempotent on the extension: the derived name always has the
/// ".md" extension, begins with the name it was derived from, is that name itself when it
/// already ended in ".md" in any case, and deriving again from it changes nothing.
pub proof fn lemma_save_name_idempotent(suggested_name: Option<Seq<char>>, title: Seq<char>)
    ensures
        has_md_extension(save_name_for(suggested_name, title)),
        save_name_for(Some(save_name_for(suggested_name, title)), title) == save_name_for(
            suggested_name,
            title,
        ),
        ({
            let base = match suggested_name {
                Some(name) => name,
                None => title,
            };
            &&& save_name_for(suggested_name, title).subrange(0, base.len() as int) == base
            &&& has_md_extension(base) ==> save_name_for(suggested_name, title) == base
        }),
{
    let base = match suggested_name {
        Some(name) => name,
        None => title,
    };
    let derived = with_md_extension(base);
    if !has_md_extension(base) {
        let n = derived.len();
        assert(derived[n - 3] == '.');
        assert(derived[n - 2] == 'm');
        assert(derived[n - 1] == 'd');
        assert(derived.subrange(0, base.len() as int) =~= base);
    } else {
        assert(derived.subrange(0, base.len() as int) =~= base);
    }
}

/// Whether `name` ends in ".md", in any mix of upper and lower case.
fn ends_with_md(name: &str) -> (r: bool)
    ensures
        r == has_md_extension(name@),
{
    let n = name.unicode_len();
    if n < 3 {
        return false;
    }
    let dot = name.get_char(n - 3);
    let m = name.get_char(n - 2);
    let d = name.get_char(n - 1);
    dot == '.' && (m == 'm' || m == 'M') && (d == 'd' || d == 'D')
}

/// The name to save a document titled `title` under: `suggested_name` if given, else the
/// title, with ".md" appended unless it already ends so (in any case). Existing characters
/// are kept as they are.
pub fn save_name(suggested_name: Option<&str>, title: &str) -> (r: String)
    ensures
        r@ == save_name_for(
            match suggested_name {
                Some(name) => Some(name@),
                None => None,
            },
            title@,
        ),
{
    let base = match suggested_name {
        Some(name) => name,
        None => title,
    };
    let mut name = String::from_str(base);
    if !ends_with_md(base) {
        proof {
            reveal_strlit(".md");
        }
        name.append(".md");
    }
    name
}

/// Reclassifies the reader's failure to retrieve the document `document_id` for the caller.
pub fn retrieve_failure(document_id: &str, err: DocRetrieveError) -> (r: RetrieveError)
    ensures
        retrieve_failure_outcome(document_id@, err, Err(r)),
{
    match err {
        DocRetrieveError::DocumentNotFound => RetrieveError::DocumentDoesNotExist {
            requested_id: String::from_str(document_id),
        },
        DocRetrieveError::BadCredentials => RetrieveError::BadAuth,
        DocRetrieveError::AdapterError(cause) => RetrieveError::DocumentRetrieveFailed(cause),
    }
}

/// Reclassifies the saver's answer to saving under `name` for the caller. A name collision
/// is reported under `name`, the name that was asked for.
pub fn save_result(name: String, answer: Result<(), SaveError>) -> (r: Result<(), RetrieveError>)
    ensures
        save_outcome(name@, answer, r),
{
    match answer {
        Ok(()) => Ok(()),
        Err(SaveError::TargetWithSameNameExists { .. }) => Err(RetrieveError::SameNameCouldNotSave { name }),
        Err(SaveError::AdapterError(cause)) => Err(RetrieveError::DocumentSaveFailed(cause)),
    }
}

/// Retrieve a document from GetOutline and save it. If a name is provided in the [options] without
/// the ".md" file extension, it will be appended automatically. If a name suggestion isn't provided,
/// the name of the document in GetOutline will be used. The document is read once and, if that
/// succeeds, written once; a name collision is reported, never resolved.
pub fn retrieve(
    reader: &impl DocumentReader,
    saver: &impl DocumentSaver,
    document_id: &str,
    options: &RetrieveOptions,
) -> (r: Result<(), RetrieveError>)
    ensures
        exists|doc: Result<DocContent, DocRetrieveError>|
            #![auto]
            reader.retrieve_answer(document_id@, doc) && match doc {
                Err(err) => retrieve_failure_outcome(document_id@, err, r),
                Ok(content) => exists|saved: Result<(), SaveError>|
                    #![auto]
                    saver.save_answer(
                        content.text@,
                        save_name_for(suggested_name_of(*options), content.title@),
                        saved,
                    ) && save_outcome(
                        save_name_for(suggested_name_of(*options), content.title@),
                        saved,
                        r,
                    ),
            },
{
    let document = match reader.retrieve_one(document_id) {
        Ok(document) => document,
        Err(err) => {
            return Err(retrieve_failure(document_id, err));
        },
    };
    let doc_name = save_name(options.suggested_name, document.title.as_str());
    let saved = saver.save_document(document.text.as_str(), doc_name.as_str());
    save_result(doc_name, saved)
}

} // verus!
