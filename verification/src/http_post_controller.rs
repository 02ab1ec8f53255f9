//! The rules of a conversion request: what is checked in which order, and
//! which response each outcome gets.

use crate::app_state::{next_count, AppState};
use crate::archive::{
    finished_archive, names_repeat, packed, packs, write_to_zip, Compression, ZipError,
};
use crate::params::{
    accept_bytes, header_text, preferred_type, read_accept_header, wants_zip, ConvertParams,
};
use crate::pdf_converter::{MultiPagesResult, PageImage, PdfConvertError, PdfConvertResult};
use crate::text::occurs_at;
use vstd::prelude::*;
use vstd::string::StringExecFns;

verus! {

/// The status of a response that carries an image or an archive.
pub const OK: u16 = 200;

/// The status of a response to a request that cannot be worked on.
pub const BAD_REQUEST: u16 = 400;

/// The status of a response to a request of the wrong content type.
pub const NOT_ACCEPTABLE: u16 = 406;

/// The status of a response to a body that is no PDF document.
pub const UNPROCESSABLE_ENTITY: u16 = 422;

/// The status of a response to a conversion that failed.
pub const INTERNAL_SERVER_ERROR: u16 = 500;

/// The body of an error response.
#[derive(Debug)]
pub struct JsonProblemResponse {
    pub _type: String,
    pub title: String,
    pub status: u16,
    pub detail: Option<String>,
    pub instance: Option<String>,
}

/// What a [`JsonProblemResponse`] stands for.
pub struct ProblemView {
    pub kind: Seq<char>,
    pub title: Seq<char>,
    pub status: u16,
    pub detail: Option<Seq<char>>,
    pub instance: Option<Seq<char>>,
}

impl View for JsonProblemResponse {
    type V = ProblemView;

    open spec fn view(&self) -> ProblemView {
        ProblemView {
            kind: self._type@,
            title: self.title@,
            status: self.status,
            detail: match self.detail {
                Some(text) => Some(text@),
                None => None,
            },
            instance: match self.instance {
                Some(text) => Some(text@),
                None => None,
            },
        }
    }
}

/// What a response carries.
#[derive(Debug)]
pub enum Body {
    /// The description of an error.
    Problem(JsonProblemResponse),
    /// One image.
    Image(PageImage),
    /// The bytes of an archive of page images.
    Archive(Vec<u8>),
}

/// The response to a request.
#[derive(Debug)]
pub struct Response {
    pub status: u16,
    pub body: Body,
}

impl Response {
    /// The response is the error response of the given description.
    pub open spec fn is_problem(&self, problem: ProblemView) -> bool {
        self.status == problem.status && (self.body matches Body::Problem(body) && body@ == problem)
    }
}

/// The description of an error of the given title, status and detail: of
/// type `about:blank` and without an instance.
pub open spec fn problem(title: Seq<char>, status: u16, detail: Seq<char>) -> ProblemView {
    ProblemView { kind: "about:blank"@, title, status, detail: Some(detail), instance: None }
}

/// The error of a request whose content type is not `application/pdf`.
pub open spec fn mime_problem() -> ProblemView {
    problem(
        "Request error"@,
        NOT_ACCEPTABLE,
        "The Content-Type of request must be \"application/pdf\""@,
    )
}

/// The error of a request whose query cannot be read.
pub open spec fn query_params_problem() -> ProblemView {
    problem("Request error"@, BAD_REQUEST, "Bad query params"@)
}

/// The error of a body that does not begin as a PDF document does.
pub open spec fn magic_problem() -> ProblemView {
    problem(
        "Request error"@,
        UNPROCESSABLE_ENTITY,
        "The uploaded file does not seem to be a PDF file"@,
    )
}

/// The error of a document without pages.
pub open spec fn empty_pdf_problem() -> ProblemView {
    problem(
        "Request error"@,
        BAD_REQUEST,
        "No pages could be extracted from the PDF. Is it empty?"@,
    )
}

/// The detail of the error of a failed conversion.
pub open spec fn convert_error_detail(error: PdfConvertError) -> Seq<char> {
    match error {
        PdfConvertError::LibraryLoad(cause) => "Failed loading the PDFium library: "@ + cause@,
        PdfConvertError::DocumentLoad(cause) => "Failed loading the document binary: "@ + cause@,
        PdfConvertError::PageRender(cause) => "Failed rendering the PDF page: "@ + cause@,
        PdfConvertError::ImageWrite(cause) => "Failed writing the PDF page as image: "@ + cause@,
        PdfConvertError::ImageRead(cause) => "Failed read image: "@ + cause@,
        PdfConvertError::TempFile(_) => "Unknown file write error"@,
    }
}

/// The error of a failed conversion.
pub open spec fn convert_problem(error: PdfConvertError) -> ProblemView {
    problem("PDF convert error"@, INTERNAL_SERVER_ERROR, convert_error_detail(error))
}

/// The detail of the error of a failed archiving.
pub open spec fn zip_error_detail(error: ZipError) -> Seq<char> {
    match error {
        ZipError::Io(cause) => "ZIP IO error: "@ + cause@,
        ZipError::IoWrite(cause) => "ZIP write error: "@ + cause@,
        ZipError::IoBuffer(cause) => "ZIP read to buffer error: "@ + cause@,
        ZipError::ZipLib(cause) => "ZIP write error: "@ + cause@,
    }
}

/// The error of a failed archiving.
pub open spec fn zip_problem(error: ZipError) -> ProblemView {
    problem("ZIP write error"@, INTERNAL_SERVER_ERROR, zip_error_detail(error))
}

/// The error response of the given status, with the given description as
/// its body.
pub fn create_response_with_json(status: u16, json: JsonProblemResponse) -> (response: Response)
    ensures
        response.status == status,
        response.body matches Body::Problem(body) && body == json,
{
    Response { status, body: Body::Problem(json) }
}

/// The description of an error of the given title, status and detail.
fn describe_problem(title: &str, status: u16, detail: String) -> (json: JsonProblemResponse)
    ensures
        json@ == problem(title@, status, detail@),
{
    JsonProblemResponse {
        _type: "about:blank".to_owned(),
        title: title.to_owned(),
        status,
        detail: Some(detail),
        instance: None,
    }
}

/// The response to a request whose content type is not `application/pdf`.
pub fn create_mime_error_response() -> (response: Response)
    ensures
        response.is_problem(mime_problem()),
{
    let detail = "The Content-Type of request must be \"application/pdf\"".to_owned();
    create_response_with_json(
        NOT_ACCEPTABLE,
        describe_problem("Request error", NOT_ACCEPTABLE, detail),
    )
}

/// The response to a request whose query cannot be read.
pub fn create_query_params_error_response() -> (response: Response)
    ensures
        response.is_problem(query_params_problem()),
{
    let detail = "Bad query params".to_owned();
    create_response_with_json(BAD_REQUEST, describe_problem("Request error", BAD_REQUEST, detail))
}

/// The response to a body that does not begin as a PDF document does.
pub fn create_magic_error_response() -> (response: Response)
    ensures
        response.is_problem(magic_problem()),
{
    let detail = "The uploaded file does not seem to be a PDF file".to_owned();
    create_response_with_json(
        UNPROCESSABLE_ENTITY,
        describe_problem("Request error", UNPROCESSABLE_ENTITY, detail),
    )
}

/// The response to a document without pages.
pub fn create_empty_pdf_error_response() -> (response: Response)
    ensures
        response.is_problem(empty_pdf_problem()),
{
    let detail = "No pages could be extracted from the PDF. Is it empty?".to_owned();
    create_response_with_json(BAD_REQUEST, describe_problem("Request error", BAD_REQUEST, detail))
}

/// The given words followed by the cause.
fn with_cause(words: &str, cause: &String) -> (text: String)
    ensures
        text@ == words@ + cause@,
{
    let mut text = words.to_owned();
    text.append(cause.as_str());
    text
}

/// The response to a failed conversion: its detail says which step failed
/// and, but for a failure of storage, why.
pub fn create_convert_error_response(e: PdfConvertError) -> (response: Response)
    ensures
        response.is_problem(convert_problem(e)),
{
    let detail = match &e {
        PdfConvertError::LibraryLoad(cause) => with_cause(
            "Failed loading the PDFium library: ",
            cause,
        ),
        PdfConvertError::DocumentLoad(cause) => with_cause(
            "Failed loading the document binary: ",
            cause,
        ),
        PdfConvertError::PageRender(cause) => with_cause("Failed rendering the PDF page: ", cause),
        PdfConvertError::ImageWrite(cause) => with_cause(
            "Failed writing the PDF page as image: ",
            cause,
        ),
        PdfConvertError::ImageRead(cause) => with_cause("Failed read image: ", cause),
        PdfConvertError::TempFile(_) => "Unknown file write error".to_owned(),
    };
    create_response_with_json(
        INTERNAL_SERVER_ERROR,
        describe_problem("PDF convert error", INTERNAL_SERVER_ERROR, detail),
    )
}

/// The response to a failed archiving: its detail says which step failed
/// and why.
pub fn create_zip_error_response(e: ZipError) -> (response: Response)
    ensures
        response.is_problem(zip_problem(e)),
{
    let detail = match &e {
        ZipError::Io(cause) => with_cause("ZIP IO error: ", cause),
        ZipError::IoWrite(cause) => with_cause("ZIP write error: ", cause),
        ZipError::IoBuffer(cause) => with_cause("ZIP read to buffer error: ", cause),
        ZipError::ZipLib(cause) => with_cause("ZIP write error: ", cause),
    };
    create_response_with_json(
        INTERNAL_SERVER_ERROR,
        describe_problem("ZIP write error", INTERNAL_SERVER_ERROR, detail),
    )
}

/// `response` answers a conversion that ended in the page images of the
/// given names and bytes: where they are packed into an archive of deflated
/// entries, it hands back that archive; else it is the error of the
/// archiving, of the kind that the first failure gives. Page images of
/// which two have the same name get the error; no page images at all get
/// the archive without entries.
pub open spec fn answers_pages(entries: Seq<(Seq<char>, Seq<u8>)>, response: Response) -> bool {
    &&& if packs(Compression::Deflated, entries) {
        response.status == OK && (response.body matches Body::Archive(bytes) && finished_archive(
            Compression::Deflated,
            entries,
        ) == Some(bytes@))
    } else {
        exists|error: ZipError|
            packed(Compression::Deflated, entries, Err(error)) && response.is_problem(
                #[trigger] zip_problem(error),
            )
    }
    &&& names_repeat(entries) ==> response.status == INTERNAL_SERVER_ERROR
    &&& entries.len() == 0 ==> response.status == OK
}

/// `response` answers a conversion that ended in `result`: a document
/// without pages gets the error of an empty document; one image is handed
/// back as it is; page images are handed back as one archive of them, in
/// their order, wherever they are packed into one.
pub open spec fn answers(result: PdfConvertResult, response: Response) -> bool {
    match result {
        PdfConvertResult::Empty => response.is_problem(empty_pdf_problem()),
        PdfConvertResult::Single(image) => response.status == OK && (
        response.body matches Body::Image(sent) && sent == image),
        PdfConvertResult::Multi(pages) => answers_pages(pages@, response),
    }
}

/// The response to a conversion that succeeded.
pub fn create_success_response(convert_result: PdfConvertResult) -> (response: Response)
    ensures
        answers(convert_result, response),
{
    match convert_result {
        PdfConvertResult::Multi(multi_pages) => {
            let zip_result = write_to_zip(multi_pages.pages());
            match zip_result {
                Ok(bytes) => Response { status: OK, body: Body::Archive(bytes) },
                Err(e) => {
                    assert(packed(Compression::Deflated, multi_pages@, Err(e)));
                    create_zip_error_response(e)
                },
            }
        },
        PdfConvertResult::Single(path) => Response { status: OK, body: Body::Image(path) },
        PdfConvertResult::Empty => create_empty_pdf_error_response(),
    }
}

/// The four bytes with which a PDF document begins: `%PDF`.
pub open spec fn pdf_magic() -> Seq<u8> {
    seq![0x25u8, 0x50u8, 0x44u8, 0x46u8]
}

/// Whether the body begins as a PDF document does.
pub fn has_pdf_magic(body: &[u8]) -> (found: bool)
    ensures
        found <==> occurs_at(body@, pdf_magic(), 0),
{
    if body.len() < 4 {
        return false;
    }
    let found = body[0] == 0x25 && body[1] == 0x50 && body[2] == 0x44 && body[3] == 0x46;
    proof {
        let head = body@.subrange(0, 4);
        if found {
            assert(head =~= pdf_magic());
        } else {
            assert(head[0] == body[0] && head[1] == body[1] && head[2] == body[2] && head[3]
                == body[3]);
        }
    }
    found
}

/// The content type is there and is exactly `application/pdf`.
pub open spec fn is_pdf(content_type: Option<Seq<char>>) -> bool {
    content_type == Some("application/pdf"@)
}

/// Whether the content type is there and is exactly `application/pdf`.
pub fn is_pdf_content_type(content_type: Option<&str>) -> (pdf: bool)
    ensures
        pdf <==> is_pdf(header_text(content_type)),
{
    match content_type {
        None => false,
        Some(value) => value.to_owned() == "application/pdf".to_owned(),
    }
}

/// `res` is what the head of a request leads to: the error of the content
/// type where that is not `application/pdf`; else the error of the query
/// where that could not be read; else the parameters of the query with the
/// format and the wish for an archive that the `Accept` value selects.
pub open spec fn head_checked(
    content_type: Option<Seq<char>>,
    query: Option<ConvertParams>,
    accept: Option<Seq<char>>,
    res: Result<ConvertParams, Response>,
) -> bool {
    if !is_pdf(content_type) {
        res matches Err(response) && response.is_problem(mime_problem())
    } else {
        match query {
            None => res matches Err(response) && response.is_problem(query_params_problem()),
            Some(asked) => res matches Ok(params) && {
                &&& params.allow_zip == wants_zip(accept_bytes(accept))
                &&& params.output_type == preferred_type(accept_bytes(accept))
                &&& params.dpi == asked.dpi
                &&& params.preserve_alpha == asked.preserve_alpha
                &&& params.background_color == asked.background_color
            },
        }
    }
}

/// Checks the head of a request: the content type first, then the query,
/// which is `None` where it could not be read, and resolves the parameters
/// of the conversion.
pub fn check_head(
    content_type: Option<&str>,
    query: Option<ConvertParams>,
    accept: Option<&str>,
) -> (res: Result<ConvertParams, Response>)
    ensures
        head_checked(header_text(content_type), query, header_text(accept), res),
{
    if !is_pdf_content_type(content_type) {
        return Err(create_mime_error_response());
    }
    let mut params = match query {
        Some(params) => params,
        None => {
            return Err(create_query_params_error_response());
        },
    };
    read_accept_header(accept, &mut params);
    Ok(params)
}

/// Checks the body of a request: one that does not begin as a PDF document
/// does gets an error response.
pub fn check_body(body: &[u8]) -> (res: Option<Response>)
    ensures
        occurs_at(body@, pdf_magic(), 0) ==> res is None,
        !occurs_at(body@, pdf_magic(), 0) ==> (res matches Some(response) && response.is_problem(
            magic_problem(),
        )),
{
    if has_pdf_magic(body) {
        None
    } else {
        Some(create_magic_error_response())
    }
}

/// `response` answers a conversion that ended in `result`, well or not.
pub open spec fn concludes_request(
    result: Result<PdfConvertResult, PdfConvertError>,
    response: Response,
) -> bool {
    match result {
        Ok(converted) => answers(converted, response),
        Err(error) => response.is_problem(convert_problem(error)),
    }
}

/// Ends a request whose conversion was tried: counts the conversion, however
/// it ended, and gives the response.
pub fn finish_request(
    state: &mut AppState,
    convert_result: Result<PdfConvertResult, PdfConvertError>,
) -> (response: Response)
    ensures
        concludes_request(convert_result, response),
        final(state).conversions() == next_count(old(state).conversions()),
        old(state).conversions() < usize::MAX ==> final(state).conversions() == old(
            state,
        ).conversions() + 1,
        final(state).token() == old(state).token(),
        final(state).converter() == old(state).converter(),
{
    state.increase_conversion_counter();
    match convert_result {
        Ok(res) => create_success_response(res),
        Err(e) => create_convert_error_response(e),
    }
}

/// How far the handling of a request has come.
#[derive(Debug)]
pub enum Stage {
    /// Nothing of the request was looked at.
    AwaitingHead,
    /// The head was accepted; the body is awaited.
    AwaitingBody(ConvertParams),
    /// The body was accepted; the outcome of the conversion is awaited.
    Converting,
    /// The response was given.
    Finished,
}

/// What has happened to a request.
#[derive(Debug)]
pub enum Event {
    /// The head was read: the content type and the `Accept` value, where
    /// the request has them, and the parameters of the query, or `None`
    /// where the query could not be read.
    Head { content_type: Option<String>, query: Option<ConvertParams>, accept: Option<String> },
    /// The body was read.
    Body(Vec<u8>),
    /// The conversion was tried.
    Converted(Result<PdfConvertResult, PdfConvertError>),
}

/// What is to be done next for a request.
#[derive(Debug)]
pub enum Action {
    /// Read the body and hand it over.
    ReadBody,
    /// Convert the document with the parameters and hand the outcome over.
    Convert { params: ConvertParams, document: Vec<u8> },
    /// Send the response.
    Respond(Response),
    /// Nothing: the event does not belong to the stage.
    Nothing,
}

/// The text of a header value that a request may lack.
pub open spec fn header(value: Option<String>) -> Option<Seq<char>> {
    match value {
        Some(text) => Some(text@),
        None => None,
    }
}

/// The value of a header as a string slice.
fn header_value(value: &Option<String>) -> (slice: Option<&str>)
    ensures
        header_text(slice) == header(*value),
{
    match value {
        Some(text) => Some(text.as_str()),
        None => None,
    }
}

/// `next` is the stage and the action that follow an event in a stage.
///
/// In the first stage the head is checked, and either the body is awaited
/// or the request ends with an error. Then the body is checked, and either
/// the conversion is asked for or the request ends with an error. Then the
/// outcome of the conversion ends the request with its response. An event
/// that does not belong to the stage changes nothing.
pub open spec fn follows(stage: Stage, event: Event, next: (Stage, Action)) -> bool {
    match (stage, event) {
        (Stage::AwaitingHead, Event::Head { content_type, query, accept }) => {
            ||| next.0 matches Stage::AwaitingBody(params) && next.1 is ReadBody && head_checked(
                header(content_type),
                query,
                header(accept),
                Ok(params),
            )
            ||| next.0 is Finished && (next.1 matches Action::Respond(response) && head_checked(
                header(content_type),
                query,
                header(accept),
                Err(response),
            ))
        },
        (Stage::AwaitingBody(params), Event::Body(document)) => {
            if occurs_at(document@, pdf_magic(), 0) {
                next.0 is Converting && next.1 == (Action::Convert { params, document })
            } else {
                next.0 is Finished && (next.1 matches Action::Respond(response)
                    && response.is_problem(magic_problem()))
            }
        },
        (Stage::Converting, Event::Converted(result)) => next.0 is Finished && (
        next.1 matches Action::Respond(response) && concludes_request(result, response)),
        _ => next.0 == stage && next.1 is Nothing,
    }
}

/// The event is the outcome of a conversion, come in the stage that awaits
/// it.
pub open spec fn is_conversion(stage: Stage, event: Event) -> bool {
    stage is Converting && event is Converted
}

/// Handles one event of a request: gives the stage that follows and what
/// is to be done next, and counts the conversion where the event is the
/// outcome of one, however it ended.
pub fn handle(state: &mut AppState, stage: Stage, event: Event) -> (next: (Stage, Action))
    ensures
        follows(stage, event, next),
        final(state).conversions() == (if is_conversion(stage, event) {
            next_count(old(state).conversions())
        } else {
            old(state).conversions()
        }),
        final(state).token() == old(state).token(),
        final(state).converter() == old(state).converter(),
{
    match (stage, event) {
        (Stage::AwaitingHead, Event::Head { content_type, query, accept }) => {
            match check_head(header_value(&content_type), query, header_value(&accept)) {
                Ok(params) => (Stage::AwaitingBody(params), Action::ReadBody),
                Err(response) => (Stage::Finished, Action::Respond(response)),
            }
        },
        (Stage::AwaitingBody(params), Event::Body(document)) => {
            match check_body(document.as_slice()) {
                None => (Stage::Converting, Action::Convert { params, document }),
                Some(response) => (Stage::Finished, Action::Respond(response)),
            }
        },
        (Stage::Converting, Event::Converted(result)) => {
            let response = finish_request(state, result);
            (Stage::Finished, Action::Respond(response))
        },
        (stage, _) => (stage, Action::Nothing),
    }
}

/// A request whose content type is missing or is not `application/pdf` is
/// answered with status 406, whatever else it holds.
pub proof fn lemma_wrong_content_type_is_refused(
    content_type: Option<String>,
    query: Option<ConvertParams>,
    accept: Option<String>,
    next: (Stage, Action),
)
    requires
        !is_pdf(header(content_type)),
        follows(Stage::AwaitingHead, Event::Head { content_type, query, accept }, next),
    ensures
        next.0 is Finished,
        next.1 matches Action::Respond(response) && response.status == 406,
{
}

/// A request whose content type is `application/pdf` and whose query could
/// not be read is answered with status 400.
pub proof fn lemma_unreadable_query_is_refused(
    content_type: Option<String>,
    accept: Option<String>,
    next: (Stage, Action),
)
    requires
        is_pdf(header(content_type)),
        follows(Stage::AwaitingHead, Event::Head { content_type, query: None, accept }, next),
    ensures
        next.0 is Finished,
        next.1 matches Action::Respond(response) && response.status == 400,
{
}

/// A body that does not begin with the bytes `%PDF` is answered with status
/// 422, whatever the parameters are.
pub proof fn lemma_other_body_is_refused(
    params: ConvertParams,
    document: Vec<u8>,
    next: (Stage, Action),
)
    requires
        !occurs_at(document@, pdf_magic(), 0),
        follows(Stage::AwaitingBody(params), Event::Body(document), next),
    ensures
        next.0 is Finished,
        next.1 matches Action::Respond(response) && response.status == 422,
{
}

/// A document without pages is answered with status 400 and a detail that
/// speaks of the empty extraction.
pub proof fn lemma_empty_document_is_refused(next: (Stage, Action))
    requires
        follows(Stage::Converting, Event::Converted(Ok(PdfConvertResult::Empty)), next),
    ensures
        next.1 matches Action::Respond(response) && response.status == 400 && (
        response.body matches Body::Problem(body) && body@.detail == Some(
            "No pages could be extracted from the PDF. Is it empty?"@,
        )),
{
}

/// A conversion that failed is answered with status 500.
pub proof fn lemma_failed_conversion_is_server_error(error: PdfConvertError, next: (Stage, Action))
    requires
        follows(Stage::Converting, Event::Converted(Err(error)), next),
    ensures
        next.1 matches Action::Respond(response) && response.status == 500,
{
}

/// Counting a conversion raises the count by exactly one, unless the count
/// is the largest that a `usize` holds.
pub proof fn lemma_count_rises_by_one(count: usize)
    requires
        count < usize::MAX,
    ensures
        next_count(count) == count + 1,
        next_count(count) > count,
{
}

/// A conversion that ended in page images which are packed into an archive
/// is answered with status 200 and that archive: one deflated entry for
/// every page image, in page order.
pub proof fn lemma_packed_pages_are_sent(pages: MultiPagesResult, next: (Stage, Action))
    requires
        packs(Compression::Deflated, pages@),
        follows(Stage::Converting, Event::Converted(Ok(PdfConvertResult::Multi(pages))), next),
    ensures
        next.0 is Finished,
        next.1 matches Action::Respond(response) && response.status == 200 && (
        response.body matches Body::Archive(bytes) && finished_archive(
            Compression::Deflated,
            pages@,
        ) == Some(bytes@)),
{
}

/// A conversion that ended in page images which are not packed into an
/// archive is answered with status 500.
pub proof fn lemma_unpacked_pages_are_server_error(pages: MultiPagesResult, next: (Stage, Action))
    requires
        !packs(Compression::Deflated, pages@),
        follows(Stage::Converting, Event::Converted(Ok(PdfConvertResult::Multi(pages))), next),
    ensures
        next.1 matches Action::Respond(response) && response.status == 500,
{
}

} // verus!
