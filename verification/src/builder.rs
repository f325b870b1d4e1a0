//! Builds the image a caller asked for, one step of outside work at a time.
//!
//! The library neither looks at the clipboard nor runs most of the decoders,
//! so the work is cut where those happen. [`start`] takes the caller's names
//! and, unless the work is over at once, asks for the formats on offer. The
//! search among them either ends the work or hands out an [`Attempt`]. The
//! driver fetches the payload of the attempt's format and resumes the attempt
//! with what came of it. Text ends the work there, and so does a bitmap of
//! moderate size, which the library decodes itself. For any other picture the
//! driver gets a [`Decoding`]: it runs the codec on the bytes held there and
//! resumes with the codec's result. A step that fails sends the search on to
//! the next name that is served.

use vstd::prelude::*;
use image::{DynamicImage, ImageError};
use crate::catalog::{
    catalog, lookup, names_of, str_eq, CodecTag, PayloadKind, LEGACY_DIB_FORMAT,
};
use crate::clipboardimage::{ClipboardError, ClipboardImage, ClipboardImageView};
use crate::codec::{bitmap_decode_outcome, decode_bitmap};
use crate::dib::{bitmap_screened, container_from_dib, container_of, screen_bitmap};
use crate::fetch::Fetched;
use crate::resolver::{
    lemma_first_served_wins, lemma_resolution_restarts, offers, resolution_from, resolve_from,
    AvailableFormat, AvailableFormatView, ResolvedFormat, ResolvedFormatView,
};

verus! {

/// What a payload is read as: an image that is ready, or bytes that the
/// codec named has yet to decode.
#[derive(Debug)]
pub enum Reading {
    Image(ClipboardImage),
    Codec(CodecTag, Vec<u8>),
}

/// A reading as a mathematical value.
pub enum ReadingView {
    Image(ClipboardImageView),
    Codec(CodecTag, Seq<u8>),
}

impl View for Reading {
    type V = ReadingView;

    open spec fn view(&self) -> ReadingView {
        match self {
            Reading::Image(image) => ReadingView::Image(image@),
            Reading::Codec(tag, input) => ReadingView::Codec(*tag, input@),
        }
    }
}

/// What is handed to the codec for a payload found under `format_name`: the
/// bitmap file made from it where the name is that of the bare bitmap format,
/// and nothing where no such file can be made; any other payload as it is.
pub open spec fn codec_input(format_name: Seq<char>, payload: Seq<u8>) -> Option<Seq<u8>> {
    if format_name == LEGACY_DIB_FORMAT@ {
        container_of(payload)
    } else {
        Some(payload)
    }
}

/// What the bytes for the codec of `tag` are read as. A bitmap file that may
/// be handed to the decoder is decoded on the spot: it becomes an image, or
/// the decoder's failure. All other bytes are left for the driver to decode:
/// those for another codec, and a bitmap file that declares more pixels than
/// the library's own call of the decoder can take.
pub open spec fn codec_reading(tag: CodecTag, input: Seq<u8>) -> Result<ReadingView, ClipboardError> {
    if tag == CodecTag::Bmp && bitmap_screened(input) {
        match decoded_image(CodecTag::Bmp, bitmap_decode_outcome(input)) {
            Ok(image) => Ok(ReadingView::Image(image)),
            Err(error) => Err(error),
        }
    } else {
        Ok(ReadingView::Codec(tag, input))
    }
}

/// What the payload fetched for `format` is read as. Text is an image as it
/// is, with the identifier and the name it was found under. A binary payload
/// goes to the codec of its entry, a bare bitmap with its file header put in
/// front; a bare bitmap that no file can be made from is a failure to decode.
pub open spec fn interpretation(format: ResolvedFormatView, payload: Seq<u8>) -> Result<
    ReadingView,
    ClipboardError,
> {
    match format.catalog_entry.kind {
        PayloadKind::Text => Ok(
            ReadingView::Image(
                ClipboardImageView::ImageString(format.format_id, format.format_name, payload),
            ),
        ),
        PayloadKind::Binary(tag) => match codec_input(format.format_name, payload) {
            Some(input) => codec_reading(tag, input),
            None => Err(ClipboardError::DecodeFailed(tag, None)),
        },
    }
}

/// A bare bitmap goes to the codec as the file made from it, and as nothing
/// else: whether the library decodes it or hands it to the driver, the bytes
/// are the blob with its file header in front.
pub proof fn lemma_bare_bitmap_goes_as_its_file(format: ResolvedFormatView, raw: Seq<u8>)
    requires
        format.catalog_entry.kind != PayloadKind::Text,
        format.format_name == LEGACY_DIB_FORMAT@,
    ensures
        match container_of(raw) {
            Some(file) => format.catalog_entry.kind matches PayloadKind::Binary(tag)
                && interpretation(format, raw) == codec_reading(tag, file),
            None => format.catalog_entry.kind matches PayloadKind::Binary(tag) && interpretation(
                format,
                raw,
            ) == Err::<ReadingView, ClipboardError>(ClipboardError::DecodeFailed(tag, None)),
        },
{
}

/// The image that a decoder's result stands for.
pub open spec fn decoded_image(tag: CodecTag, decoded: Result<DynamicImage, ImageError>) -> Result<
    ClipboardImageView,
    ClipboardError,
> {
    match decoded {
        Ok(picture) => Ok(ClipboardImageView::ImageBinary(tag, Some(picture))),
        Err(error) => Err(ClipboardError::DecodeFailed(tag, Some(error))),
    }
}

/// What an attempt on `format` comes to once its payload has been fetched:
/// the reading of the payload, or the error that stands for the failed fetch.
pub open spec fn attempted(format: ResolvedFormatView, fetched: Fetched) -> Result<
    ReadingView,
    ClipboardError,
> {
    match fetched.outcome() {
        Ok(payload) => interpretation(format, payload),
        Err(error) => Err(error),
    }
}

/// What an attempt on `format` comes to in the end, when the codec answers
/// `decode(input, tag)` for the bytes it is handed.
pub open spec fn completed(
    format: ResolvedFormatView,
    fetched: Fetched,
    decode: spec_fn(Seq<u8>, CodecTag) -> Result<DynamicImage, ImageError>,
) -> Result<ClipboardImageView, ClipboardError> {
    match attempted(format, fetched) {
        Ok(ReadingView::Image(image)) => Ok(image),
        Ok(ReadingView::Codec(tag, input)) => decoded_image(tag, decode(input, tag)),
        Err(error) => Err(error),
    }
}

/// What the whole work comes to, from place `from` of the caller's list on,
/// when fetching the format with identifier `id` gives `fetch(id)` and the
/// codec answers `decode(input, tag)`. The names are tried in their order.
/// The first attempt that yields an image ends the work; one that fails is
/// passed over; when no name is left that is served, nothing is found. A name
/// that the catalog does not hold fails the work when the search reaches it.
pub open spec fn built(
    preferred: Seq<Seq<char>>,
    from: int,
    available: Seq<AvailableFormatView>,
    fetch: spec_fn(u32) -> Fetched,
    decode: spec_fn(Seq<u8>, CodecTag) -> Result<DynamicImage, ImageError>,
) -> Result<ClipboardImageView, ClipboardError>
    decreases preferred.len() - from,
{
    match resolution_from(preferred, from, available) {
        Err(error) => Err(error),
        Ok(None) => Ok(ClipboardImageView::NotFound),
        Ok(Some((place, format))) => match completed(format, fetch(format.format_id), decode) {
            Ok(image) => Ok(image),
            Err(_) => {
                proof {
                    lemma_first_served_wins(preferred, from, available);
                }
                built(preferred, place + 1, available, fetch, decode)
            },
        },
    }
}

/// Makes the image that a decoder's result stands for: the picture with its
/// codec, or the decoder's failure as an error of this library.
pub fn image_from_decoded(tag: CodecTag, decoded: Result<DynamicImage, ImageError>) -> (result: Result<
    ClipboardImage,
    ClipboardError,
>)
    ensures
        match decoded_image(tag, decoded) {
            Ok(image) => result matches Ok(built) && built@ == image,
            Err(error) => result matches Err(raised) && raised == error,
        },
{
    match decoded {
        Ok(picture) => Ok(ClipboardImage::ImageBinary(tag, Some(picture))),
        Err(error) => Err(ClipboardError::DecodeFailed(tag, Some(error))),
    }
}

/// Decodes a bitmap file where it may be handed to the decoder, and makes an
/// image of the result. Gives nothing, and leaves the decoder alone, where
/// the file may not be handed to it.
pub fn image_from_bitmap(file: &[u8]) -> (result: Option<Result<ClipboardImage, ClipboardError>>)
    ensures
        result.is_some() <==> bitmap_screened(file@),
        result matches Some(outcome) ==> match decoded_image(
            CodecTag::Bmp,
            bitmap_decode_outcome(file@),
        ) {
            Ok(image) => outcome matches Ok(built) && built@ == image,
            Err(error) => outcome matches Err(raised) && raised == error,
        },
{
    if screen_bitmap(file) {
        Some(image_from_decoded(CodecTag::Bmp, decode_bitmap(file)))
    } else {
        None
    }
}

/// Reads the bytes for the codec of `tag`: decodes a bitmap file on the spot
/// where it may be handed to the decoder, and leaves all other bytes to the
/// driver.
pub fn read_for_codec(tag: CodecTag, input: Vec<u8>) -> (result: Result<Reading, ClipboardError>)
    ensures
        match codec_reading(tag, input@) {
            Ok(reading) => result matches Ok(read) && read@ == reading,
            Err(error) => result matches Err(raised) && raised == error,
        },
{
    match tag {
        CodecTag::Bmp => match image_from_bitmap(input.as_slice()) {
            Some(Ok(image)) => Ok(Reading::Image(image)),
            Some(Err(error)) => Err(error),
            None => Ok(Reading::Codec(tag, input)),
        },
        _ => Ok(Reading::Codec(tag, input)),
    }
}

/// Reads the payload that was fetched for `format`: text becomes an image, a
/// bitmap of moderate size is decoded, and any other binary payload becomes
/// the bytes for the codec of its entry.
pub fn interpret(format: ResolvedFormat, payload: Vec<u8>) -> (result: Result<Reading, ClipboardError>)
    ensures
        match interpretation(format@, payload@) {
            Ok(reading) => result matches Ok(read) && read@ == reading,
            Err(error) => result matches Err(raised) && raised == error,
        },
{
    match format.catalog_entry.kind {
        PayloadKind::Text => Ok(
            Reading::Image(
                ClipboardImage::ImageString(format.format_id, format.format_name, payload),
            ),
        ),
        PayloadKind::Binary(tag) => {
            if str_eq(format.format_name.as_str(), LEGACY_DIB_FORMAT) {
                match container_from_dib(payload.as_slice()) {
                    Some(file) => read_for_codec(tag, file),
                    None => Err(ClipboardError::DecodeFailed(tag, None)),
                }
            } else {
                read_for_codec(tag, payload)
            }
        },
    }
}

/// A format that was found for one of the caller's names and whose payload is
/// still to be fetched, together with what is needed to go on should the
/// payload be of no use.
#[derive(Debug)]
pub struct Attempt<'a> {
    preferred: &'a [&'a str],
    available: &'a [AvailableFormat],
    position: usize,
    format: ResolvedFormat,
}

/// Bytes that are still to be decoded, with the codec that is to decode them,
/// together with what is needed to go on should the codec reject them.
#[derive(Debug)]
pub struct Decoding<'a> {
    preferred: &'a [&'a str],
    available: &'a [AvailableFormat],
    next: usize,
    tag: CodecTag,
    input: Vec<u8>,
}

/// The caller's names, still to be held against the formats on offer.
#[derive(Debug)]
pub struct Enumeration<'a> {
    preferred: &'a [&'a str],
}

/// What the driver is to do first.
#[derive(Debug)]
pub enum Start<'a> {
    /// Enumerate the formats on offer and resume with them.
    Enumerate(Enumeration<'a>),
    /// The work is done without a look at the clipboard; this is the image.
    Done(ClipboardImage),
    /// The work cannot be done.
    Fail(ClipboardError),
}

/// What the driver is to do next.
#[derive(Debug)]
pub enum Action<'a> {
    /// Fetch the payload of the attempt's format and resume the attempt with it.
    Fetch(Attempt<'a>),
    /// Run the codec on the bytes held and resume with its result.
    Decode(Decoding<'a>),
    /// The work is done; this is the image.
    Done(ClipboardImage),
    /// The work cannot be done.
    Fail(ClipboardError),
}

impl<'a> Attempt<'a> {
    /// The names the caller asked for.
    pub closed spec fn names(self) -> Seq<Seq<char>> {
        names_of(self.preferred@)
    }

    /// The formats that were on offer.
    pub closed spec fn on_offer(self) -> Seq<AvailableFormatView> {
        offers(self.available@)
    }

    /// The place, in the caller's list, of the name this attempt is for.
    pub closed spec fn place(self) -> int {
        self.position as int
    }

    /// The format whose payload is to be fetched.
    pub closed spec fn resolved(self) -> ResolvedFormatView {
        self.format@
    }

    /// An attempt is for the first name, from its place on, that is served.
    #[verifier::type_invariant]
    closed spec fn established(self) -> bool {
        resolution_from(self.names(), self.place(), self.on_offer()) == Ok::<
            Option<(int, ResolvedFormatView)>,
            ClipboardError,
        >(Some((self.place(), self.resolved())))
    }

    /// The identifier of the format whose payload is to be fetched.
    pub fn format_id(&self) -> (id: u32)
        ensures
            id == self.resolved().format_id,
            id != 0,
    {
        proof {
            use_type_invariant(self);
            lemma_first_served_wins(self.names(), self.place(), self.on_offer());
        }
        self.format.format_id
    }

    /// The format whose payload is to be fetched: the one at which the search
    /// stops when it starts at this attempt's place.
    pub fn format(&self) -> (format: &ResolvedFormat)
        ensures
            format@ == self.resolved(),
            resolution_from(self.names(), self.place(), self.on_offer()) == Ok::<
                Option<(int, ResolvedFormatView)>,
                ClipboardError,
            >(Some((self.place(), self.resolved()))),
    {
        proof {
            use_type_invariant(self);
        }
        &self.format
    }

    /// Goes on with what came of the fetch. Text ends the work with its
    /// image, and so does a bitmap that the library decodes itself. Any other
    /// binary payload is handed out for decoding. A fetch that failed, a bare
    /// bitmap that no file can be made from, or a bitmap that the decoder
    /// rejects sends the search on to the names behind this attempt's; the
    /// work ends with nothing found when none of them is served.
    pub fn resume(self, fetched: Fetched) -> (action: Action<'a>)
        ensures
            match attempted(self.resolved(), fetched) {
                Ok(ReadingView::Image(image)) => action matches Action::Done(built) && built@
                    == image,
                Ok(ReadingView::Codec(tag, input)) => {
                    &&& action matches Action::Decode(decoding)
                    &&& decoding.codec() == tag
                    &&& decoding.bytes() == input
                    &&& decoding.names() == self.names()
                    &&& decoding.on_offer() == self.on_offer()
                    &&& decoding.next_place() == self.place() + 1
                },
                Err(_) => searched(action, self.names(), self.place() + 1, self.on_offer()),
            },
    {
        proof {
            use_type_invariant(&self);
            lemma_first_served_wins(self.names(), self.place(), self.on_offer());
            assert(self.position < self.preferred.len());
        }
        let Attempt { preferred, available, position, format } = self;
        let read = match fetched.payload() {
            Ok(payload) => interpret(format, payload),
            Err(error) => Err(error),
        };
        match read {
            Ok(Reading::Image(image)) => Action::Done(image),
            Ok(Reading::Codec(tag, input)) => Action::Decode(
                Decoding { preferred, available, next: position + 1, tag, input },
            ),
            Err(_) => search(preferred, position + 1, available),
        }
    }
}

impl<'a> Enumeration<'a> {
    /// The names the caller asked for.
    pub closed spec fn names(self) -> Seq<Seq<char>> {
        names_of(self.preferred@)
    }

    /// Goes on with the formats on offer: searches them for the first of the
    /// caller's names that is served.
    pub fn resume(self, available: &'a [AvailableFormat]) -> (action: Action<'a>)
        ensures
            searched(action, self.names(), 0, offers(available@)),
    {
        search(self.preferred, 0, available)
    }
}

impl<'a> Decoding<'a> {
    /// The names the caller asked for.
    pub closed spec fn names(self) -> Seq<Seq<char>> {
        names_of(self.preferred@)
    }

    /// The formats that were on offer.
    pub closed spec fn on_offer(self) -> Seq<AvailableFormatView> {
        offers(self.available@)
    }

    /// The place, in the caller's list, at which the search goes on should
    /// the codec reject the bytes.
    pub closed spec fn next_place(self) -> int {
        self.next as int
    }

    /// The codec that is to decode the bytes.
    pub closed spec fn codec(self) -> CodecTag {
        self.tag
    }

    /// The bytes that are to be decoded.
    pub closed spec fn bytes(self) -> Seq<u8> {
        self.input@
    }

    /// The codec that is to decode the bytes.
    pub fn codec_tag(&self) -> (tag: CodecTag)
        ensures
            tag == self.codec(),
    {
        self.tag
    }

    /// The bytes that are to be decoded.
    pub fn input(&self) -> (input: &[u8])
        ensures
            input@ == self.bytes(),
    {
        self.input.as_slice()
    }

    /// Goes on with the codec's result. A picture ends the work with its
    /// image. A failure sends the search on to the names that are left; the
    /// work ends with nothing found when none of them is served.
    pub fn resume(self, decoded: Result<DynamicImage, ImageError>) -> (action: Action<'a>)
        ensures
            match decoded_image(self.codec(), decoded) {
                Ok(image) => action matches Action::Done(built) && built@ == image,
                Err(_) => searched(action, self.names(), self.next_place(), self.on_offer()),
            },
    {
        let Decoding { preferred, available, next, tag, input: _ } = self;
        match image_from_decoded(tag, decoded) {
            Ok(image) => Action::Done(image),
            Err(_) => search(preferred, next, available),
        }
    }
}

/// Whether `action` is the one that follows from searching `preferred`, from
/// place `from` on, among the formats on offer: an attempt on the first name
/// that is served, the end of the work with nothing found when no name is
/// served, and failure when a name that the catalog does not hold comes first.
pub open spec fn searched(
    action: Action,
    preferred: Seq<Seq<char>>,
    from: int,
    available: Seq<AvailableFormatView>,
) -> bool {
    match resolution_from(preferred, from, available) {
        Ok(Some((place, format))) => {
            &&& action matches Action::Fetch(attempt)
            &&& attempt.names() == preferred
            &&& attempt.on_offer() == available
            &&& attempt.place() == place
            &&& attempt.resolved() == format
        },
        Ok(None) => action matches Action::Done(ClipboardImage::NotFound),
        Err(_) => action matches Action::Fail(ClipboardError::UnknownFormatName),
    }
}

/// Searches from place `from` on and says what to do next.
fn search<'a>(preferred: &'a [&'a str], from: usize, available: &'a [AvailableFormat]) -> (action:
    Action<'a>)
    ensures
        searched(action, names_of(preferred@), from as int, offers(available@)),
{
    match resolve_from(preferred, from, available) {
        Ok(Some((position, format))) => {
            proof {
                lemma_resolution_restarts(
                    names_of(preferred@),
                    from as int,
                    offers(available@),
                );
            }
            Action::Fetch(Attempt { preferred, available, position, format })
        },
        Ok(None) => Action::Done(ClipboardImage::NotFound),
        Err(error) => Action::Fail(error),
    }
}

/// The end that `action` leads to when fetching the format with identifier
/// `id` gives `fetch(id)` and the codec answers `decode(input, tag)`: what it
/// holds where the work is over, and else what its step and the search
/// behind it come to.
pub open spec fn leads_to(
    action: Action,
    fetch: spec_fn(u32) -> Fetched,
    decode: spec_fn(Seq<u8>, CodecTag) -> Result<DynamicImage, ImageError>,
) -> Result<ClipboardImageView, ClipboardError> {
    match action {
        Action::Done(image) => Ok(image@),
        Action::Fail(error) => Err(error),
        Action::Fetch(attempt) => match completed(
            attempt.resolved(),
            fetch(attempt.resolved().format_id),
            decode,
        ) {
            Ok(image) => Ok(image),
            Err(_) => built(
                attempt.names(),
                attempt.place() + 1,
                attempt.on_offer(),
                fetch,
                decode,
            ),
        },
        Action::Decode(decoding) => match decoded_image(
            decoding.codec(),
            decode(decoding.bytes(), decoding.codec()),
        ) {
            Ok(image) => Ok(image),
            Err(_) => built(
                decoding.names(),
                decoding.next_place(),
                decoding.on_offer(),
                fetch,
                decode,
            ),
        },
    }
}

/// Every search keeps the work on its course: the action that a search from
/// place `from` came to leads to the end that the whole work has from there.
/// So a driver that does what each action asks for and resumes it ends with
/// what `built` gives for the caller's whole list.
pub proof fn lemma_action_leads_to_built(
    action: Action,
    preferred: Seq<Seq<char>>,
    from: int,
    available: Seq<AvailableFormatView>,
    fetch: spec_fn(u32) -> Fetched,
    decode: spec_fn(Seq<u8>, CodecTag) -> Result<DynamicImage, ImageError>,
)
    requires
        0 <= from,
        searched(action, preferred, from, available),
    ensures
        leads_to(action, fetch, decode) == built(preferred, from, available, fetch, decode),
{
    lemma_first_served_wins(preferred, from, available);
}

/// The failures of single attempts are absorbed: the whole work fails only
/// with `UnknownFormatName`, and only where the caller's list holds a name
/// that the catalog does not. Where every name is known, the work ends with
/// an image or with nothing found, whatever the fetches and the codec did.
pub proof fn lemma_only_unknown_names_fail(
    preferred: Seq<Seq<char>>,
    from: int,
    available: Seq<AvailableFormatView>,
    fetch: spec_fn(u32) -> Fetched,
    decode: spec_fn(Seq<u8>, CodecTag) -> Result<DynamicImage, ImageError>,
)
    requires
        0 <= from,
    ensures
        built(preferred, from, available, fetch, decode) matches Err(error) ==> {
            &&& error == ClipboardError::UnknownFormatName
            &&& exists|place: int|
                from <= place < preferred.len() && catalog(#[trigger] preferred[place]).is_none()
        },
    decreases preferred.len() - from,
{
    lemma_first_served_wins(preferred, from, available);
    if let Ok(Some((place, format))) = resolution_from(preferred, from, available) {
        if completed(format, fetch(format.format_id), decode).is_err() {
            lemma_only_unknown_names_fail(preferred, place + 1, available, fetch, decode);
            if let Err(_) = built(preferred, place + 1, available, fetch, decode) {
                let unknown = choose|unknown: int|
                    place + 1 <= unknown < preferred.len() && catalog(
                        #[trigger] preferred[unknown],
                    ).is_none();
                assert(from <= unknown < preferred.len() && catalog(preferred[unknown]).is_none());
            }
        }
    }
}

/// Whether `first` is what the work starts with, before anything is known
/// of the formats on offer. An empty list ends the work with nothing found,
/// and a first name that the catalog does not hold fails it, both without a
/// look at the clipboard. Otherwise the formats are to be enumerated.
pub open spec fn started(first: Start, preferred: Seq<Seq<char>>) -> bool {
    if preferred.len() == 0 {
        first matches Start::Done(ClipboardImage::NotFound)
    } else if catalog(preferred[0]).is_none() {
        first matches Start::Fail(ClipboardError::UnknownFormatName)
    } else {
        first matches Start::Enumerate(enumeration) && enumeration.names() == preferred
    }
}

/// Where the work ends before the formats are enumerated, it ends as it
/// would have ended whatever was on offer, fetched and decoded.
pub proof fn lemma_early_end_is_the_end(
    first: Start,
    preferred: Seq<Seq<char>>,
    available: Seq<AvailableFormatView>,
    fetch: spec_fn(u32) -> Fetched,
    decode: spec_fn(Seq<u8>, CodecTag) -> Result<DynamicImage, ImageError>,
)
    requires
        started(first, preferred),
    ensures
        first matches Start::Done(image) ==> built(preferred, 0, available, fetch, decode) == Ok::<
            ClipboardImageView,
            ClipboardError,
        >(image@),
        first matches Start::Fail(error) ==> built(preferred, 0, available, fetch, decode)
            == Err::<ClipboardImageView, ClipboardError>(error),
{
}

/// Starts the work with the caller's names alone.
pub fn start<'a>(preferred: &'a [&'a str]) -> (first: Start<'a>)
    ensures
        started(first, names_of(preferred@)),
{
    if preferred.len() == 0 {
        Start::Done(ClipboardImage::NotFound)
    } else {
        assert(names_of(preferred@)[0] == preferred@[0]@);
        match lookup(preferred[0]) {
            Some(_) => Start::Enumerate(Enumeration { preferred }),
            None => Start::Fail(ClipboardError::UnknownFormatName),
        }
    }
}

/// Starts the work for a driver that has enumerated the formats already:
/// searches the formats on offer for the first of the caller's names that is
/// served.
pub fn begin<'a>(preferred: &'a [&'a str], available: &'a [AvailableFormat]) -> (action: Action<'a>)
    ensures
        searched(action, names_of(preferred@), 0, offers(available@)),
{
    search(preferred, 0, available)
}

} // verus!
