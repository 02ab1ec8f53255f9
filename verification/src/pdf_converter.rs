//! From the rendered pages of a document to what is handed back: nothing,
//! one image, or the list of page images.

use crate::codec::{decode, decoded_image, encode, encoded_image, image_error_text};
use crate::combine::{
    canvas_size, lemma_stack_layout, max_width, stack_fits, stack_images, stacked, total_height,
    views_of,
};
use crate::file_name::FileName;
use crate::params::{ConvertParams, OutputImageType};
use crate::raster::{Raster, RasterView};
use vstd::prelude::*;

verus! {

/// Why a conversion failed, each time with the message of its cause.
#[derive(Debug)]
pub enum PdfConvertError {
    /// The rendering engine could not be loaded.
    LibraryLoad(String),
    /// The engine could not open the document.
    DocumentLoad(String),
    /// The engine could not render a page.
    PageRender(String),
    /// An image could not be encoded.
    ImageWrite(String),
    /// A page image could not be decoded again.
    ImageRead(String),
    /// No room could be made to store an image.
    TempFile(String),
}

/// An image stored as a file: the file's name and its bytes.
#[derive(Debug)]
pub struct PageImage {
    pub name: FileName,
    pub data: Vec<u8>,
}

impl View for PageImage {
    type V = (Seq<char>, Seq<u8>);

    open spec fn view(&self) -> (Seq<char>, Seq<u8>) {
        (self.name@, self.data@)
    }
}

/// The names and bytes of a list of files, in the list's order.
pub open spec fn listing(files: Seq<PageImage>) -> Seq<(Seq<char>, Seq<u8>)> {
    files.map_values(|file: PageImage| file@)
}

/// The page images of a document, in page order.
#[derive(Debug)]
pub struct MultiPagesResult {
    temp_files: Vec<PageImage>,
}

impl View for MultiPagesResult {
    type V = Seq<(Seq<char>, Seq<u8>)>;

    closed spec fn view(&self) -> Seq<(Seq<char>, Seq<u8>)> {
        listing(self.temp_files@)
    }
}

impl MultiPagesResult {
    /// A result without pages.
    pub fn new() -> (result: Self)
        ensures
            result@ == Seq::<(Seq<char>, Seq<u8>)>::empty(),
    {
        let result = Self { temp_files: Vec::new() };
        assert(result@ =~= Seq::empty());
        result
    }

    /// Adds a page behind those that are there.
    pub fn push(&mut self, path: PageImage)
        ensures
            final(self)@ == old(self)@.push(path@),
    {
        self.temp_files.push(path);
        assert(self@ =~= old(self)@.push(path@));
    }

    /// Whether there is no page.
    pub fn is_empty(&self) -> (empty: bool)
        ensures
            empty <==> self@.len() == 0,
    {
        self.temp_files.is_empty()
    }

    /// Whether there is exactly one page.
    pub fn is_single(&self) -> (single: bool)
        ensures
            single <==> self@.len() == 1,
    {
        self.temp_files.len() == 1
    }

    /// The number of pages.
    pub fn len(&self) -> (n: usize)
        ensures
            n == self@.len(),
    {
        self.temp_files.len()
    }

    /// The pages, in page order.
    pub fn pages(&self) -> (files: &Vec<PageImage>)
        ensures
            listing(files@) == self@,
    {
        &self.temp_files
    }

    /// Gives up the result for its pages, in page order.
    pub fn into_pages(self) -> (files: Vec<PageImage>)
        ensures
            listing(files@) == self@,
    {
        self.temp_files
    }

    /// An iterator over the pages, in page order.
    pub fn to_iter(&self) -> (iter: std::slice::Iter<'_, PageImage>)
        ensures
            listing(vstd::std_specs::slice::into_iter_elts(iter)) == self@,
    {
        let files = self.temp_files.as_slice();
        let iter = files.iter();
        proof {
            vstd::std_specs::slice::axiom_spec_slice_iter(files);
            assert(vstd::std_specs::slice::into_iter_elts(iter) =~= self.temp_files@);
        }
        iter
    }
}

/// What a conversion hands back.
#[derive(Debug)]
pub enum PdfConvertResult {
    /// The document has no pages.
    Empty,
    /// One image: the only page, or all pages stacked.
    Single(PageImage),
    /// One image for every page, to be archived.
    Multi(MultiPagesResult),
}

/// Every file of the list can be decoded as an image of the format.
pub open spec fn all_decode(format: OutputImageType, files: Seq<(Seq<char>, Seq<u8>)>) -> bool {
    forall|i: int| 0 <= i < files.len() ==> (#[trigger] decoded_image(format, files[i].1)) is Some
}

/// The images decoded from the files of the list, in the list's order.
pub open spec fn decoded_views(format: OutputImageType, files: Seq<(Seq<char>, Seq<u8>)>) -> Seq<
    RasterView,
> {
    files.map_values(|file: (Seq<char>, Seq<u8>)| decoded_image(format, file.1).unwrap())
}

/// How the combining of page images into one image ends.
pub enum Combined {
    /// One of the files cannot be decoded.
    Undecodable,
    /// The stack of the pages cannot be held.
    TooLarge,
    /// The stack cannot be encoded.
    Unencodable,
    /// The bytes of the encoded stack.
    Image(Seq<u8>),
}

/// How the combining of the given files ends: each is decoded, the decoded
/// pages are stacked, and the stack is encoded in the same format.
pub open spec fn combined(format: OutputImageType, files: Seq<(Seq<char>, Seq<u8>)>) -> Combined {
    if !all_decode(format, files) {
        Combined::Undecodable
    } else if !stack_fits(decoded_views(format, files)) {
        Combined::TooLarge
    } else {
        match encoded_image(format, stacked(decoded_views(format, files))) {
            None => Combined::Unencodable,
            Some(bytes) => Combined::Image(bytes),
        }
    }
}

/// Decodes every file of the list, in order, and stops at the first that
/// cannot be decoded.
pub fn decode_pages(files: &Vec<PageImage>, format: OutputImageType) -> (res: Result<
    Vec<Raster>,
    PdfConvertError,
>)
    ensures
        res is Ok <==> all_decode(format, listing(files@)),
        res matches Ok(pages) ==> views_of(pages@) == decoded_views(format, listing(files@)),
        res matches Err(e) ==> e is ImageRead,
{
    let ghost entries = listing(files@);
    let mut pages: Vec<Raster> = Vec::new();
    let mut i: usize = 0;
    while i < files.len()
        invariant
            0 <= i <= files.len(),
            entries == listing(files@),
            pages.len() == i,
            forall|j: int|
                0 <= j < i ==> decoded_image(format, #[trigger] entries[j].1) == Some(pages[j]@),
        decreases files.len() - i,
    {
        assert(entries[i as int].1 == files[i as int].data@);
        match decode(format, files[i].data.as_slice()) {
            Ok(page) => {
                pages.push(page);
            },
            Err(e) => {
                return Err(PdfConvertError::ImageRead(image_error_text(&e)));
            },
        }
        i += 1;
    }
    assert(views_of(pages@) =~= decoded_views(format, entries));
    Ok(pages)
}

/// Combines the page images into one image of the same format, stored under
/// the given name: every page is decoded, the pages are stacked from top to
/// bottom in their order, and the stack is encoded.
///
/// The result is `None` where the pages can be decoded but their stack
/// cannot be held; otherwise it is the image or the reason why there is none.
pub fn combine_images(result: &MultiPagesResult, format: OutputImageType, name: FileName) -> (res:
    Option<Result<PageImage, PdfConvertError>>)
    ensures
        match combined(format, result@) {
            Combined::Undecodable => res matches Some(Err(PdfConvertError::ImageRead(_))),
            Combined::TooLarge => res is None,
            Combined::Unencodable => res matches Some(Err(PdfConvertError::ImageWrite(_))),
            Combined::Image(bytes) => res matches Some(Ok(image)) && image@ == (name@, bytes),
        },
{
    let pages = match decode_pages(result.pages(), format) {
        Ok(pages) => pages,
        Err(e) => {
            return Some(Err(e));
        },
    };
    if canvas_size(&pages).is_none() {
        return None;
    }
    let canvas = stack_images(&pages);
    proof {
        use_type_invariant(&canvas);
    }
    match encode(format, &canvas) {
        Ok(data) => Some(Ok(PageImage { name, data })),
        Err(e) => Some(Err(PdfConvertError::ImageWrite(image_error_text(&e)))),
    }
}

/// A page as the rendering engine left it: the name under which its image
/// is to be stored, and the rendered image or the engine's message.
#[derive(Debug)]
pub struct PageRendering {
    pub name: FileName,
    pub image: Result<Raster, String>,
}

impl View for PageRendering {
    type V = (Seq<char>, Result<RasterView, Seq<char>>);

    open spec fn view(&self) -> (Seq<char>, Result<RasterView, Seq<char>>) {
        (
            self.name@,
            match self.image {
                Ok(image) => Ok(image@),
                Err(message) => Err(message@),
            },
        )
    }
}

/// What each rendering of a list stands for, in the list's order.
pub open spec fn renderings(pages: Seq<PageRendering>) -> Seq<
    (Seq<char>, Result<RasterView, Seq<char>>),
> {
    pages.map_values(|page: PageRendering| page@)
}

/// The file that a rendered page is stored as, where it was rendered and
/// can be encoded.
pub open spec fn stored_page(
    format: OutputImageType,
    page: (Seq<char>, Result<RasterView, Seq<char>>),
) -> Option<(Seq<char>, Seq<u8>)> {
    match page.1 {
        Err(_) => None,
        Ok(image) => match encoded_image(format, image) {
            None => None,
            Some(bytes) => Some((page.0, bytes)),
        },
    }
}

/// Every page of the list can be stored.
pub open spec fn all_stored(
    format: OutputImageType,
    pages: Seq<(Seq<char>, Result<RasterView, Seq<char>>)>,
) -> bool {
    forall|i: int| 0 <= i < pages.len() ==> (#[trigger] stored_page(format, pages[i])) is Some
}

/// The files that the pages of the list are stored as, in the list's order.
pub open spec fn stored_pages(
    format: OutputImageType,
    pages: Seq<(Seq<char>, Result<RasterView, Seq<char>>)>,
) -> Seq<(Seq<char>, Seq<u8>)> {
    pages.map_values(
        |page: (Seq<char>, Result<RasterView, Seq<char>>)| stored_page(format, page).unwrap(),
    )
}

/// Page `k` is the first of the list that cannot be stored.
pub open spec fn fails_at(
    format: OutputImageType,
    pages: Seq<(Seq<char>, Result<RasterView, Seq<char>>)>,
    k: int,
) -> bool {
    &&& 0 <= k < pages.len()
    &&& stored_page(format, pages[k]) is None
    &&& forall|j: int| 0 <= j < k ==> (#[trigger] stored_page(format, pages[j])) is Some
}

/// `res` is what the stored pages of a document are reduced to: nothing
/// for no pages; all of them where an archive is asked for; else the only
/// page, or the pages combined under the given name.
pub open spec fn concludes(
    files: Seq<(Seq<char>, Seq<u8>)>,
    format: OutputImageType,
    allow_zip: bool,
    name: Seq<char>,
    res: Option<Result<PdfConvertResult, PdfConvertError>>,
) -> bool {
    if files.len() == 0 {
        res matches Some(Ok(PdfConvertResult::Empty))
    } else if allow_zip {
        res matches Some(Ok(PdfConvertResult::Multi(all))) && all@ == files
    } else if files.len() == 1 {
        res matches Some(Ok(PdfConvertResult::Single(only))) && only@ == files[0]
    } else {
        match combined(format, files) {
            Combined::Undecodable => res matches Some(Err(PdfConvertError::ImageRead(_))),
            Combined::TooLarge => res is None,
            Combined::Unencodable => res matches Some(Err(PdfConvertError::ImageWrite(_))),
            Combined::Image(bytes) => res matches Some(Ok(PdfConvertResult::Single(image)))
                && image@ == (name, bytes),
        }
    }
}

/// Turns the rendered pages of a document into what is handed back.
#[derive(Clone, Debug)]
pub struct PdfConverter {
    pdfium_lib: String,
}

impl PdfConverter {
    /// A converter whose rendering engine is looked for at the given path.
    pub fn new(pdfium_lib: String) -> (converter: Self)
        ensures
            converter.library()@ == pdfium_lib@,
    {
        Self { pdfium_lib }
    }

    /// The path at which the rendering engine is looked for.
    pub closed spec fn library(&self) -> String {
        self.pdfium_lib
    }

    /// The path at which the rendering engine is looked for.
    pub fn pdfium_lib(&self) -> (path: &String)
        ensures
            path@ == self.library()@,
    {
        &self.pdfium_lib
    }

    /// Stores one page behind those stored before: encodes its image in the
    /// format and keeps the bytes under the page's name. A page that was not
    /// rendered, or whose image cannot be encoded, is not stored, and the
    /// pages stored before stay as they are.
    pub fn store_page(
        &self,
        result: &mut MultiPagesResult,
        page: PageRendering,
        format: OutputImageType,
    ) -> (res: Result<(), PdfConvertError>)
        ensures
            res is Ok <==> stored_page(format, page@) is Some,
            res is Ok ==> final(result)@ == old(result)@.push(stored_page(format, page@).unwrap()),
            res is Err ==> final(result)@ == old(result)@,
            res matches Err(e) ==> match page@.1 {
                Err(message) => e matches PdfConvertError::PageRender(text) && text@ == message,
                Ok(_) => e is ImageWrite,
            },
    {
        let PageRendering { name, image } = page;
        match image {
            Err(message) => Err(PdfConvertError::PageRender(message)),
            Ok(image) => {
                proof {
                    use_type_invariant(&image);
                }
                match encode(format, &image) {
                    Err(e) => Err(PdfConvertError::ImageWrite(image_error_text(&e))),
                    Ok(data) => {
                        result.push(PageImage { name, data });
                        Ok(())
                    },
                }
            },
        }
    }

    /// Whether the stored pages of a document are to be combined into one
    /// image: there are several, and no archive is asked for. Only then is
    /// the name for the combined image made use of.
    pub fn combines(&self, result: &MultiPagesResult, params: &ConvertParams) -> (combining: bool)
        ensures
            combining <==> !params.allow_zip && result@.len() > 1,
    {
        !params.allow_zip && result.len() > 1
    }

    /// Reduces the stored pages of a document to what is handed back.
    ///
    /// The result is `None` where the pages are to be combined and can be
    /// decoded, but their stack cannot be held.
    pub fn conclude(
        &self,
        result: MultiPagesResult,
        params: &ConvertParams,
        name: FileName,
    ) -> (res: Option<Result<PdfConvertResult, PdfConvertError>>)
        ensures
            concludes(result@, params.output_type, params.allow_zip, name@, res),
    {
        if result.is_empty() {
            return Some(Ok(PdfConvertResult::Empty));
        }
        if !params.allow_zip {
            if result.is_single() {
                let ghost files = result@;
                let mut pages = result.into_pages();
                let first = pages.remove(0);
                assert(first@ == files[0]);
                return Some(Ok(PdfConvertResult::Single(first)));
            }
            return match combine_images(&result, params.output_type, name) {
                None => None,
                Some(Ok(image)) => Some(Ok(PdfConvertResult::Single(image))),
                Some(Err(e)) => Some(Err(e)),
            };
        }
        Some(Ok(PdfConvertResult::Multi(result)))
    }

    /// Converts the rendered pages of a document: stores every page in the
    /// format of the parameters, in page order, and reduces the stored pages
    /// to what is handed back. The first page that cannot be stored ends the
    /// conversion with its error, and nothing of the other pages is handed
    /// back.
    ///
    /// The result is `None` where the pages are to be combined and can be
    /// decoded, but their stack cannot be held.
    pub fn convert(&self, pages: Vec<PageRendering>, params: ConvertParams, name: FileName) -> (res:
        Option<Result<PdfConvertResult, PdfConvertError>>)
        ensures
            all_stored(params.output_type, renderings(pages@)) ==> concludes(
                stored_pages(params.output_type, renderings(pages@)),
                params.output_type,
                params.allow_zip,
                name@,
                res,
            ),
            forall|k: int| #[trigger]
                fails_at(params.output_type, renderings(pages@), k) ==> match pages[k]@.1 {
                    Err(message) => res matches Some(Err(PdfConvertError::PageRender(text)))
                        && text@ == message,
                    Ok(_) => res matches Some(Err(PdfConvertError::ImageWrite(_))),
                },
    {
        let ghost all = renderings(pages@);
        let format = params.output_type;
        let mut result = MultiPagesResult::new();
        for page in iter: pages
            invariant
                format == params.output_type,
                all == renderings(pages@),
                all == renderings(iter.seq()),
                result@.len() == iter.index(),
                forall|j: int|
                    0 <= j < iter.index() ==> stored_page(format, #[trigger] all[j]) == Some(
                        result@[j],
                    ),
        {
            let ghost i = iter.index() as int;
            assert(page@ == all[i]);
            match self.store_page(&mut result, page, format) {
                Ok(()) => {},
                Err(e) => {
                    proof {
                        assert(fails_at(format, all, i));
                        assert forall|k: int| #[trigger]
                            fails_at(format, all, k) implies k == i by {
                            if k < i {
                                assert(stored_page(format, all[k]) is Some);
                            }
                            if k > i {
                                assert(stored_page(format, all[i]) is Some);
                            }
                        }
                    }
                    return Some(Err(e));
                },
            }
        }
        proof {
            assert(result@ =~= stored_pages(format, all));
            assert forall|k: int| !(#[trigger] fails_at(format, all, k)) by {
                if 0 <= k < all.len() {
                    assert(stored_page(format, all[k]) is Some);
                }
            }
        }
        self.conclude(result, &params, name)
    }
}

/// Two outcomes of a conversion hand back the same: both nothing, or
/// images of the same names and bytes in the same order; or neither hands
/// anything back.
pub open spec fn same_outcome(
    first: Option<Result<PdfConvertResult, PdfConvertError>>,
    second: Option<Result<PdfConvertResult, PdfConvertError>>,
) -> bool {
    match first {
        Some(Ok(PdfConvertResult::Empty)) => second matches Some(Ok(PdfConvertResult::Empty)),
        Some(Ok(PdfConvertResult::Single(image))) => second matches Some(
            Ok(PdfConvertResult::Single(other)),
        ) && other@ == image@,
        Some(Ok(PdfConvertResult::Multi(pages))) => second matches Some(
            Ok(PdfConvertResult::Multi(others)),
        ) && others@ == pages@,
        Some(Err(PdfConvertError::ImageRead(_))) => second matches Some(
            Err(PdfConvertError::ImageRead(_)),
        ),
        Some(Err(PdfConvertError::ImageWrite(_))) => second matches Some(
            Err(PdfConvertError::ImageWrite(_)),
        ),
        Some(Err(_)) => second matches Some(Err(_)),
        None => second is None,
    }
}

/// Reducing the same stored pages under the same parameters twice hands
/// back the same bytes both times.
pub proof fn lemma_conclusion_is_repeatable(
    files: Seq<(Seq<char>, Seq<u8>)>,
    format: OutputImageType,
    allow_zip: bool,
    name: Seq<char>,
    first: Option<Result<PdfConvertResult, PdfConvertError>>,
    second: Option<Result<PdfConvertResult, PdfConvertError>>,
)
    requires
        concludes(files, format, allow_zip, name, first),
        concludes(files, format, allow_zip, name, second),
    ensures
        same_outcome(first, second),
{
}

/// A document without pages is reduced to nothing, whatever the
/// parameters are.
pub proof fn lemma_no_pages_is_empty(
    format: OutputImageType,
    allow_zip: bool,
    name: Seq<char>,
    res: Option<Result<PdfConvertResult, PdfConvertError>>,
)
    requires
        concludes(Seq::empty(), format, allow_zip, name, res),
    ensures
        res matches Some(Ok(PdfConvertResult::Empty)),
{
}

/// Where an archive is asked for, a document with pages is reduced to all
/// of its page images, in page order.
pub proof fn lemma_archive_keeps_every_page(
    files: Seq<(Seq<char>, Seq<u8>)>,
    format: OutputImageType,
    name: Seq<char>,
    res: Option<Result<PdfConvertResult, PdfConvertError>>,
)
    requires
        files.len() > 0,
        concludes(files, format, true, name, res),
    ensures
        res matches Some(Ok(PdfConvertResult::Multi(pages))) && pages@ == files,
{
}

/// Where no archive is asked for and a document of several pages is reduced
/// to an image, that image is the encoded stack of the decoded pages: as
/// wide as the widest page, as high as all pages together, the pages from
/// top to bottom in page order.
pub proof fn lemma_several_pages_are_stacked(
    files: Seq<(Seq<char>, Seq<u8>)>,
    format: OutputImageType,
    name: Seq<char>,
    res: Option<Result<PdfConvertResult, PdfConvertError>>,
    image: PageImage,
)
    requires
        files.len() > 1,
        concludes(files, format, false, name, res),
        res == Some(Ok::<PdfConvertResult, PdfConvertError>(PdfConvertResult::Single(image))),
    ensures
        all_decode(format, files),
        image@.0 == name,
        encoded_image(format, stacked(decoded_views(format, files))) == Some(image@.1),
        stacked(decoded_views(format, files)).width == max_width(
            decoded_views(format, files),
        ),
        stacked(decoded_views(format, files)).height == total_height(
            decoded_views(format, files),
        ),
{
    lemma_stack_layout(decoded_views(format, files));
}

/// The stored pages of a document are as many as its pages and stand in
/// page order: each has the name of its page and the bytes of that page's
/// encoded image.
pub proof fn lemma_stored_pages_keep_order(
    format: OutputImageType,
    pages: Seq<(Seq<char>, Result<RasterView, Seq<char>>)>,
)
    requires
        all_stored(format, pages),
    ensures
        stored_pages(format, pages).len() == pages.len(),
        forall|i: int|
            0 <= i < pages.len() ==> (#[trigger] stored_pages(format, pages)[i]).0 == pages[i].0
                && (pages[i].1 matches Ok(image) && encoded_image(format, image) == Some(
                stored_pages(format, pages)[i].1,
            )),
{
    assert forall|i: int| 0 <= i < pages.len() implies (#[trigger] stored_pages(
        format,
        pages,
    )[i]).0 == pages[i].0 && (pages[i].1 matches Ok(image) && encoded_image(format, image)
        == Some(stored_pages(format, pages)[i].1)) by {
        assert(stored_page(format, pages[i]) is Some);
    }
}

} // verus!
