//! Which page answers which request.
//!
//! The service looks at a request's method and path and at the feeder's
//! state, and says which page to send and which event, if any, the request
//! stands for. Sending is somebody else's work.

use vstd::prelude::*;
use vstd::string::StringSliceAdditionalSpecFns;
use crate::state::{Event, State};

verus! {

/// The byte that parts a path.
pub const SLASH: u8 = 0x2f;

/// A request's method, as far as the service tells methods apart.
#[derive(Clone, Copy, Debug, PartialEq, Eq, Structural)]
pub enum Method {
    Get,
    Post,
    Other,
}

/// A page of the feeder.
#[derive(Clone, Copy, Debug, PartialEq, Eq, Structural)]
pub enum Page {
    /// The front page, with the numbers it shows.
    Hello { click_count: u32, loop_count: u32, picture_count: usize, last_tag: u32, last_distance: u16 },
    /// The page around picture `image_id` of `total_images`.
    Picture { image_id: usize, total_images: usize },
    /// Picture `image_id` itself.
    Image { image_id: usize },
    /// The feeder's icon.
    Favicon,
    /// Back to the front page.
    Redirect,
    /// There is no such page.
    NotFound,
    /// The request names something that is not there.
    Unprocessable,
}

/// What a request gets: a page, and the event it stands for.
#[derive(Debug, PartialEq, Eq)]
pub struct Answer {
    pub page: Page,
    pub event: Option<Event>,
}

/// The segments of the rest of a path, given the segment `current` that
/// was begun before it.
pub open spec fn split(path: Seq<u8>, current: Seq<u8>) -> Seq<Seq<u8>>
    decreases path.len(),
{
    let ended = if current.len() == 0 {
        Seq::<Seq<u8>>::empty()
    } else {
        seq![current]
    };
    if path.len() == 0 {
        ended
    } else if path[0] == SLASH {
        ended + split(path.drop_first(), Seq::empty())
    } else {
        split(path.drop_first(), current.push(path[0]))
    }
}

/// The segments of a path: what stands between its slashes, without what
/// is empty.
pub open spec fn segments(path: Seq<u8>) -> Seq<Seq<u8>> {
    split(path, Seq::empty())
}

/// What a character is worth as a decimal digit.
pub open spec fn decimal_value(byte: u8) -> Option<int> {
    if 0x30 <= byte <= 0x39 {
        Some(byte - 0x30)
    } else {
        None
    }
}

/// What `digits` are worth as a decimal number, if each is a digit.
pub open spec fn decimal_digits(digits: Seq<u8>) -> Option<int>
    decreases digits.len(),
{
    if digits.len() == 0 {
        Some(0)
    } else {
        match (decimal_digits(digits.drop_last()), decimal_value(digits.last())) {
            (Some(high), Some(low)) => Some(10 * high + low),
            _ => None,
        }
    }
}

/// The index that `text` names: a plus sign may come first, at least one
/// decimal digit must follow, nothing else may stand in it, and the number
/// must fit.
pub open spec fn index_named(text: Seq<u8>) -> Option<usize> {
    let digits = if text.len() > 0 && text[0] == 0x2b {
        text.drop_first()
    } else {
        text
    };
    if digits.len() == 0 {
        None
    } else {
        match decimal_digits(digits) {
            Some(value) => if value <= usize::MAX {
                Some(value as usize)
            } else {
                None
            },
            None => None,
        }
    }
}

/// Whether `text` names picture number `id` of `count`.
pub open spec fn names_picture(text: Seq<u8>, count: nat) -> bool {
    index_named(text) matches Some(id) && id < count
}

/// The answer to a request with `method` for the path with segments
/// `path`, from a feeder in `state`.
pub open spec fn answer_for(method: Method, path: Seq<Seq<u8>>, state: State) -> Answer {
    let count = state.pictures@.len();
    if method == Method::Get && path.len() == 0 {
        Answer {
            page: Page::Hello {
                click_count: state.click_count,
                loop_count: state.loop_count,
                picture_count: count as usize,
                last_tag: match state.last_tag_read {
                    Some(tag) => tag,
                    None => 0,
                },
                last_distance: state.distance,
            },
            event: None,
        }
    } else if method == Method::Post && path.len() == 1 && path[0] == "increase_click".spec_bytes() {
        Answer { page: Page::Redirect, event: Some(Event::IncClick) }
    } else if method == Method::Get && path.len() == 1 && path[0] == "favicon.ico".spec_bytes() {
        Answer { page: Page::Favicon, event: None }
    } else if method == Method::Post && path.len() == 1 && path[0] == "take_picture".spec_bytes() {
        if state.has_camera {
            Answer { page: Page::Redirect, event: Some(Event::TakeImageRequest) }
        } else {
            Answer { page: Page::NotFound, event: None }
        }
    } else if method == Method::Get && path.len() == 2 && path[0] == "picture".spec_bytes() {
        if names_picture(path[1], count) {
            Answer {
                page: Page::Picture {
                    image_id: index_named(path[1]).unwrap(),
                    total_images: count as usize,
                },
                event: None,
            }
        } else {
            Answer { page: Page::NotFound, event: None }
        }
    } else if method == Method::Get && path.len() == 2 && path[0] == "images".spec_bytes() {
        if names_picture(path[1], count) {
            Answer { page: Page::Image { image_id: index_named(path[1]).unwrap() }, event: None }
        } else {
            Answer { page: Page::NotFound, event: None }
        }
    } else if method == Method::Post && path.len() == 2 && path[0] == "delete_image".spec_bytes() {
        if names_picture(path[1], count) {
            Answer {
                page: Page::Redirect,
                event: Some(Event::DeleteImage(index_named(path[1]).unwrap())),
            }
        } else {
            Answer { page: Page::Unprocessable, event: None }
        }
    } else {
        Answer { page: Page::NotFound, event: None }
    }
}

/// The texts that `parts` hold.
pub open spec fn texts(parts: Seq<Vec<u8>>) -> Seq<Seq<u8>> {
    Seq::new(parts.len(), |i: int| parts[i]@)
}

impl Page {
    /// The media type the page is sent as, for the pages that say theirs.
    pub open spec fn media_type(self) -> Option<Seq<char>> {
        match self {
            Page::Hello { .. } | Page::Picture { .. } | Page::Redirect => Some(
                "text/html;charset=utf-8"@,
            ),
            Page::Image { .. } => Some("image/jpg"@),
            Page::Favicon => Some("image/png"@),
            Page::NotFound | Page::Unprocessable => None,
        }
    }

    /// The media type the page is sent as, for the pages that say theirs.
    pub fn content_type(&self) -> (media: Option<&'static str>)
        ensures
            media is None <==> self.media_type() is None,
            media matches Some(text) ==> self.media_type() == Some(text@),
    {
        match self {
            Page::Hello { .. } | Page::Picture { .. } | Page::Redirect => Some(
                "text/html;charset=utf-8",
            ),
            Page::Image { .. } => Some("image/jpg"),
            Page::Favicon => Some("image/png"),
            Page::NotFound | Page::Unprocessable => None,
        }
    }

    /// The status code the page is sent with.
    pub fn status(&self) -> (code: u16)
        ensures
            code == (match *self {
                Page::Hello { .. } | Page::Picture { .. } | Page::Image { .. } | Page::Favicon => 200u16,
                Page::Redirect => 302u16,
                Page::NotFound => 404u16,
                Page::Unprocessable => 422u16,
            }),
    {
        match self {
            Page::Hello { .. } | Page::Picture { .. } | Page::Image { .. } | Page::Favicon => 200,
            Page::Redirect => 302,
            Page::NotFound => 404,
            Page::Unprocessable => 422,
        }
    }
}

/// Splits a path into its segments.
pub fn split_path(path: &[u8]) -> (parts: Vec<Vec<u8>>)
    ensures
        texts(parts@) == segments(path@),
{
    let mut parts: Vec<Vec<u8>> = Vec::new();
    let mut current: Vec<u8> = Vec::new();
    let mut i: usize = 0;
    assert(path@.skip(0) =~= path@);
    assert(texts(parts@) =~= Seq::<Seq<u8>>::empty());
    while i < path.len()
        invariant
            i <= path.len(),
            segments(path@) == texts(parts@) + split(path@.skip(i as int), current@),
        decreases path.len() - i,
    {
        let ghost rest = path@.skip(i as int);
        let ghost begun = current@;
        let ghost before = texts(parts@);
        assert(rest.drop_first() =~= path@.skip(i + 1));
        assert(rest[0] == path@[i as int]);
        if path[i] == SLASH {
            if current.len() > 0 {
                parts.push(current);
                current = Vec::new();
                assert(texts(parts@) =~= before + seq![begun]);
                assert(split(rest, begun) == seq![begun] + split(rest.drop_first(), Seq::empty()));
            } else {
                assert(split(rest, begun) == Seq::<Seq<u8>>::empty() + split(
                    rest.drop_first(),
                    Seq::empty(),
                ));
            }
            assert(current@ =~= Seq::<u8>::empty());
            assert(segments(path@) =~= texts(parts@) + split(path@.skip(i + 1), current@));
        } else {
            current.push(path[i]);
            assert(split(rest, begun) == split(rest.drop_first(), begun.push(rest[0])));
        }
        i += 1;
    }
    assert(path@.skip(i as int).len() == 0);
    if current.len() > 0 {
        let ghost before = texts(parts@);
        let ghost begun = current@;
        parts.push(current);
        assert(texts(parts@) =~= before + seq![begun]);
    }
    assert(segments(path@) =~= texts(parts@));
    parts
}

/// Whether two texts are the same.
fn same_text(a: &[u8], b: &[u8]) -> (same: bool)
    ensures
        same == (a@ == b@),
{
    if a.len() != b.len() {
        return false;
    }
    let mut i: usize = 0;
    while i < a.len()
        invariant
            i <= a.len(),
            a.len() == b.len(),
            forall|k: int| 0 <= k < i ==> a@[k] == b@[k],
        decreases a.len() - i,
    {
        if a[i] != b[i] {
            return false;
        }
        i += 1;
    }
    assert(a@ =~= b@);
    true
}

/// Whether `segment` spells `name`.
fn is_named(segment: &Vec<u8>, name: &str) -> (named: bool)
    ensures
        named == (segment@ == name.spec_bytes()),
{
    same_text(segment.as_slice(), name.as_bytes())
}

/// A longer row of digits is worth no less than any row it begins with.
proof fn lemma_digits_grow(digits: Seq<u8>, shorter: int)
    requires
        0 <= shorter <= digits.len(),
    ensures
        match decimal_digits(digits) {
            Some(value) => decimal_digits(digits.take(shorter)) matches Some(less) && 0 <= less
                <= value,
            None => true,
        },
    decreases digits.len(),
{
    if shorter == digits.len() {
        assert(digits.take(shorter) =~= digits);
        if digits.len() > 0 {
            lemma_digits_grow(digits.drop_last(), digits.len() - 1);
        }
    } else {
        lemma_digits_grow(digits.drop_last(), shorter);
        assert(digits.drop_last().take(shorter) =~= digits.take(shorter));
    }
}

/// Reads the index that `text` names.
pub fn parse_index(text: &[u8]) -> (index: Option<usize>)
    ensures
        index == index_named(text@),
{
    let start: usize = if text.len() > 0 && text[0] == 0x2b {
        1
    } else {
        0
    };
    let ghost digits = text@.subrange(start as int, text@.len() as int);
    assert(start == 0 ==> digits == text@);
    assert(start == 1 ==> digits == text@.drop_first());
    if start == text.len() {
        return None;
    }
    let mut value: usize = 0;
    let mut i: usize = start;
    while i < text.len()
        invariant
            start <= i <= text.len(),
            digits == text@.subrange(start as int, text@.len() as int),
            digits.len() > 0,
            index_named(text@) == (match decimal_digits(digits) {
                Some(value) => if value <= usize::MAX {
                    Some(value as usize)
                } else {
                    None
                },
                None => None,
            }),
            decimal_digits(digits.take(i - start)) == Some(value as int),
        decreases text.len() - i,
    {
        proof {
            let shorter = digits.take(i - start);
            let longer = digits.take(i + 1 - start);
            assert(longer.drop_last() == shorter);
            assert(longer.last() == text@[i as int]);
            lemma_digits_grow(digits, i + 1 - start);
        }
        let byte = text[i];
        if byte < 0x30 || byte > 0x39 {
            assert(decimal_digits(digits.take(i + 1 - start)) is None);
            return None;
        }
        let low: usize = (byte - 0x30) as usize;
        if value > (usize::MAX - low) / 10 {
            assert(decimal_digits(digits.take(i + 1 - start)) == Some(10 * value + low));
            return None;
        }
        value = 10 * value + low;
        i += 1;
    }
    assert(digits.take(text.len() - start) == digits);
    Some(value)
}

/// Reads the number of a picture that is there.
fn parse_picture(text: &Vec<u8>, count: usize) -> (id: Option<usize>)
    ensures
        id is Some <==> names_picture(text@, count as nat),
        id is Some ==> id == index_named(text@),
{
    match parse_index(text.as_slice()) {
        Some(id) => if id < count {
            Some(id)
        } else {
            None
        },
        None => None,
    }
}

/// Answers a request.
///
/// The front page is got at the bare path. A click is posted at
/// `increase_click`, a request for a picture at `take_picture` (which there
/// is not without a camera); both lead back to the front page. The icon is
/// got at `favicon.ico`. `picture/N` is the page around picture `N`,
/// `images/N` the picture, and a post at `delete_image/N` deletes it, each
/// for an `N` below the number of pictures. Everything else is not found,
/// except a deletion of what is not there, which cannot be processed.
pub fn http_response(method: Method, path: &[u8], state: &State) -> (answer: Answer)
    ensures
        answer == answer_for(method, segments(path@), *state),
{
    let parts = split_path(path);
    let count = state.pictures.len();
    let not_found = Answer { page: Page::NotFound, event: None };
    assert(parts@.len() == texts(parts@).len());
    assert(forall|k: int| 0 <= k < parts@.len() ==> parts@[k]@ == #[trigger] texts(parts@)[k]);
    match method {
        Method::Get => {
            if parts.len() == 0 {
                let last_tag: u32 = match state.last_tag_read() {
                    Some(tag) => tag,
                    None => 0,
                };
                Answer {
                    page: Page::Hello {
                        click_count: state.click_count,
                        loop_count: state.loop_count,
                        picture_count: count,
                        last_tag,
                        last_distance: state.distance,
                    },
                    event: None,
                }
            } else if parts.len() == 1 && is_named(&parts[0], "favicon.ico") {
                Answer { page: Page::Favicon, event: None }
            } else if parts.len() == 2 && is_named(&parts[0], "picture") {
                match parse_picture(&parts[1], count) {
                    Some(image_id) => Answer {
                        page: Page::Picture { image_id, total_images: count },
                        event: None,
                    },
                    None => not_found,
                }
            } else if parts.len() == 2 && is_named(&parts[0], "images") {
                match parse_picture(&parts[1], count) {
                    Some(image_id) => Answer { page: Page::Image { image_id }, event: None },
                    None => not_found,
                }
            } else {
                not_found
            }
        },
        Method::Post => {
            if parts.len() == 1 && is_named(&parts[0], "increase_click") {
                Answer { page: Page::Redirect, event: Some(Event::IncClick) }
            } else if parts.len() == 1 && is_named(&parts[0], "take_picture") {
                if state.has_camera {
                    Answer { page: Page::Redirect, event: Some(Event::TakeImageRequest) }
                } else {
                    not_found
                }
            } else if parts.len() == 2 && is_named(&parts[0], "delete_image") {
                match parse_picture(&parts[1], count) {
                    Some(id) => Answer { page: Page::Redirect, event: Some(Event::DeleteImage(id)) },
                    None => Answer { page: Page::Unprocessable, event: None },
                }
            } else {
                not_found
            }
        },
        Method::Other => not_found,
    }
}

} // verus!
