//! Talking to `w3mimgdisplay`, the program that draws the image: where it
//! is looked for, what it is asked, and how its answers are read.

use vstd::prelude::*;
use vstd::string::*;
use crate::number::{decimal, parse_u32, parsed_u32, to_decimal};
use crate::text::{chars_of, find_char};

verus! {

/// A rectangle of the screen, in character cells.
#[derive(PartialEq, Eq, Clone, Copy, Debug)]
pub struct Rect {
    pub x: u16,
    pub y: u16,
    pub width: u16,
    pub height: u16,
}

/// Why no image can be drawn.
#[derive(PartialEq, Eq, Clone, Copy, Debug)]
pub enum DisplayError {
    /// The program was found at none of the places where it is looked for.
    Unavailable,
    /// The program's answer does not hold two fields.
    WrongOutput,
    /// A field of the program's answer is no number.
    InvalidNumber,
    /// The sizes cannot be reckoned with: the screen or the block has no
    /// width or height, or a size does not fit in 32 bits.
    DoesNotFit,
}

/// The text that tells the user of the error.
pub open spec fn display_error_text(error: DisplayError) -> Seq<char> {
    match error {
        DisplayError::Unavailable => "w3mimgdisplay is not available!"@,
        DisplayError::WrongOutput => "w3mimgdisplay wrong output"@,
        DisplayError::InvalidNumber => "w3mimgdisplay wrong output: not a number"@,
        DisplayError::DoesNotFit => "the image cannot be placed on this screen"@,
    }
}

impl DisplayError {
    /// The text that tells the user of the error.
    pub fn message(&self) -> (text: String)
        ensures
            text@ == display_error_text(*self),
    {
        match self {
            DisplayError::Unavailable => String::from_str("w3mimgdisplay is not available!"),
            DisplayError::WrongOutput => String::from_str("w3mimgdisplay wrong output"),
            DisplayError::InvalidNumber => String::from_str(
                "w3mimgdisplay wrong output: not a number",
            ),
            DisplayError::DoesNotFit => String::from_str(
                "the image cannot be placed on this screen",
            ),
        }
    }
}

/// The program that draws the image, by its path.
#[derive(PartialEq, Eq, Clone, Debug)]
pub struct ImageDisplay {
    path: String,
}

impl View for ImageDisplay {
    type V = Seq<char>;

    /// The path of the program.
    closed spec fn view(&self) -> Seq<char> {
        self.path@
    }
}

/// Where an image is drawn and how large, in pixels.
#[derive(PartialEq, Eq, Clone, Copy, Debug)]
pub struct Placement {
    pub x: u32,
    pub y: u32,
    pub width: u32,
    pub height: u32,
}

/// The places where the program is looked for: the one that the environment
/// names, unless it names none, then the usual ones.
pub open spec fn search_path_views(env_path: Seq<char>) -> Seq<Seq<char>> {
    let usual = seq![
        "/usr/lib/w3m/w3mimgdisplay"@,
        "/usr/libexec/w3m/w3mimgdisplay"@,
        "/usr/lib64/w3m/w3mimgdisplay"@,
        "/usr/libexec64/w3m/w3mimgdisplay"@,
        "/usr/local/libexec/w3m/w3mimgdisplay"@,
    ];
    if env_path.len() == 0 {
        usual
    } else {
        seq![env_path] + usual
    }
}

/// The last of `found[..upto]` that exists.
pub open spec fn last_present(found: Seq<(String, bool)>, upto: nat) -> Option<nat>
    decreases upto,
{
    if upto == 0 || upto > found.len() {
        None
    } else if found[upto - 1].1 {
        Some((upto - 1) as nat)
    } else {
        last_present(found, (upto - 1) as nat)
    }
}

/// Whether a character is white space, as `char::is_whitespace` has it.
pub open spec fn is_space(c: char) -> bool {
    let code = c as u32;
    ||| 0x09 <= code <= 0x0D
    ||| code == 0x20
    ||| code == 0x85
    ||| code == 0xA0
    ||| code == 0x1680
    ||| 0x2000 <= code <= 0x200A
    ||| code == 0x2028
    ||| code == 0x2029
    ||| code == 0x202F
    ||| code == 0x205F
    ||| code == 0x3000
}

/// Where `text` starts once the white space before it is left out.
pub open spec fn trim_start(text: Seq<char>, from: nat) -> nat
    decreases text.len() - from,
{
    if from < text.len() && is_space(text[from as int]) {
        trim_start(text, from + 1)
    } else {
        from
    }
}

/// Where `text[from..upto]` ends once the white space behind it is left out.
pub open spec fn trim_end(text: Seq<char>, from: nat, upto: nat) -> nat
    decreases upto,
{
    if from < upto <= text.len() && is_space(text[upto - 1]) {
        trim_end(text, from, (upto - 1) as nat)
    } else {
        upto
    }
}

/// `text` without the white space around it.
pub open spec fn trimmed(text: Seq<char>) -> Seq<char> {
    let from = trim_start(text, 0);
    let upto = trim_end(text, from, text.len());
    if from <= upto <= text.len() {
        text.subrange(from as int, upto as int)
    } else {
        Seq::empty()
    }
}

/// The two sizes that an answer of the program holds: the answer without the
/// white space around it is cut at each blank, and its first two fields are
/// read as numbers.
pub open spec fn dimensions(output: Seq<char>) -> Result<(u32, u32), DisplayError> {
    let text = trimmed(output);
    match find_char(text, ' ', 0) {
        None => Err(DisplayError::WrongOutput),
        Some(first) => {
            let end = match find_char(text, ' ', first + 1) {
                Some(second) => second,
                None => text.len(),
            };
            match parsed_u32(text.take(first as int)) {
                None => Err(DisplayError::InvalidNumber),
                Some(width) => match parsed_u32(text.subrange(first + 1 as int, end as int)) {
                    None => Err(DisplayError::InvalidNumber),
                    Some(height) => Ok((width, height)),
                },
            }
        },
    }
}

/// The size of one character cell in pixels, from the program's answer to
/// `-test`: each of the two sizes that it holds, and two more, divided by the
/// number of cells of the screen that way.
pub open spec fn font_size(output: Seq<char>, terminal: Rect) -> Result<(u32, u32), DisplayError> {
    match dimensions(output) {
        Err(error) => Err(error),
        Ok((width, height)) => if width + 2 > u32::MAX || height + 2 > u32::MAX || terminal.width
            == 0 || terminal.height == 0 {
            Err(DisplayError::DoesNotFit)
        } else {
            Ok(
                (
                    ((width + 2) / (terminal.width as int)) as u32,
                    ((height + 2) / (terminal.height as int)) as u32,
                ),
            )
        },
    }
}

/// Where an image of `image` pixels is drawn inside `block`, a cell being
/// `font` pixels large: one cell inside the block's corner, made smaller
/// where it is wider or higher than the block without one cell, its
/// proportions kept. There is no such place where the block has no width or
/// height or a product does not fit in 32 bits.
pub open spec fn placement(block: Rect, font: (u32, u32), image: (u32, u32)) -> Option<Placement> {
    let x = (block.x + 1) * font.0;
    let y = (block.y + 1) * font.1;
    let max_width = (block.width - 1) * font.0;
    let max_height = (block.height - 1) * font.1;
    if block.width == 0 || block.height == 0 || x > u32::MAX || y > u32::MAX || max_width
        > u32::MAX || max_height > u32::MAX {
        None
    } else {
        let narrowed = image.0 > max_width;
        let width = if narrowed {
            max_width
        } else {
            image.0 as int
        };
        let height = if narrowed {
            max_width * image.1 / (image.0 as int)
        } else {
            image.1 as int
        };
        if narrowed && max_width * image.1 > u32::MAX {
            None
        } else if height > max_height {
            if max_height * width > u32::MAX {
                None
            } else {
                Some(
                    Placement {
                        x: x as u32,
                        y: y as u32,
                        width: (max_height * width / height) as u32,
                        height: max_height as u32,
                    },
                )
            }
        } else {
            Some(Placement { x: x as u32, y: y as u32, width: width as u32, height: height as u32 })
        }
    }
}

/// What the program is told to draw the image at `path` at `place`.
pub open spec fn draw_command(place: Placement, path: Seq<char>) -> Seq<char> {
    "0;1;"@ + decimal(place.x as nat) + ";"@ + decimal(place.y as nat) + ";"@ + decimal(
        place.width as nat,
    ) + ";"@ + decimal(place.height as nat) + ";;;;;"@ + path + "\n4;\n3;\n"@
}

/// What the program is asked to learn the size of the image at `path`.
pub open spec fn size_query(path: Seq<char>) -> Seq<char> {
    "5;"@ + path + "\n"@
}

/// Whether a character is white space.
fn space(c: char) -> (is: bool)
    ensures
        is == is_space(c),
{
    let code = c as u32;
    (0x09 <= code && code <= 0x0D) || code == 0x20 || code == 0x85 || code == 0xA0 || code
        == 0x1680 || (0x2000 <= code && code <= 0x200A) || code == 0x2028 || code == 0x2029
        || code == 0x202F || code == 0x205F || code == 0x3000
}

/// The place of the first `c` in `chars[from..upto]`, or `upto`.
fn find_in(chars: &Vec<char>, c: char, from: usize, upto: usize) -> (at: usize)
    requires
        from <= upto <= chars.len(),
    ensures
        from <= at <= upto,
        at < upto ==> find_char(chars@.take(upto as int), c, from as nat) == Some(at as nat),
        at == upto ==> find_char(chars@.take(upto as int), c, from as nat).is_none(),
{
    let ghost text = chars@.take(upto as int);
    let mut at: usize = from;
    while at < upto && chars[at] != c
        invariant
            from <= at <= upto <= chars.len(),
            text == chars@.take(upto as int),
            find_char(text, c, from as nat) == find_char(text, c, at as nat),
        decreases upto - at,
    {
        at = at + 1;
    }
    at
}

/// Reads the two sizes that an answer of the program holds.
pub fn parse_dimensions(output: &str) -> (sizes: Result<(u32, u32), DisplayError>)
    ensures
        sizes == dimensions(output@),
{
    let chars = chars_of(output);
    let mut from: usize = 0;
    while from < chars.len() && space(chars[from])
        invariant
            from <= chars.len(),
            trim_start(chars@, 0) == trim_start(chars@, from as nat),
        decreases chars.len() - from,
    {
        from = from + 1;
    }
    let mut upto: usize = chars.len();
    while from < upto && space(chars[upto - 1])
        invariant
            from <= upto <= chars.len(),
            trim_end(chars@, from as nat, chars@.len()) == trim_end(
                chars@,
                from as nat,
                upto as nat,
            ),
        decreases upto,
    {
        upto = upto - 1;
    }
    let ghost text = trimmed(output@);
    // The fields are looked for in the part of `chars` that ends at `upto`.
    let ghost head = chars@.take(upto as int);
    assert(text =~= head.skip(from as int));
    let first = find_in(&chars, ' ', from, upto);
    proof {
        lemma_find_char_skip(head, ' ', from as nat, 0);
    }
    if first == upto {
        return Err(DisplayError::WrongOutput);
    }
    let end = find_in(&chars, ' ', first + 1, upto);
    proof {
        lemma_find_char_skip(head, ' ', from as nat, (first + 1 - from) as nat);
        assert(text.take(first - from) =~= chars@.subrange(from as int, first as int));
        assert(text.subrange(first + 1 - from, end - from) =~= chars@.subrange(
            first + 1,
            end as int,
        ));
    }
    let width = match parse_u32(&chars, from, first) {
        Some(width) => width,
        None => {
            return Err(DisplayError::InvalidNumber);
        },
    };
    let height = match parse_u32(&chars, first + 1, end) {
        Some(height) => height,
        None => {
            return Err(DisplayError::InvalidNumber);
        },
    };
    Ok((width, height))
}

/// The first `c` of a text from which a head was cut off stands where it
/// stood, counted from the cut.
proof fn lemma_find_char_skip(text: Seq<char>, c: char, cut: nat, from: nat)
    requires
        cut + from <= text.len(),
    ensures
        find_char(text.skip(cut as int), c, from) == match find_char(text, c, cut + from) {
            Some(at) => Some((at - cut) as nat),
            None => None,
        },
    decreases text.len() - cut - from,
{
    let rest = text.skip(cut as int);
    if from < rest.len() {
        if rest[from as int] != c {
            lemma_find_char_skip(text, c, cut, from + 1);
        }
    }
}

/// Reads the size of one character cell from the program's answer to
/// `-test`, the screen being `terminal` cells large.
pub fn font_dimensions(output: &str, terminal: Rect) -> (size: Result<(u32, u32), DisplayError>)
    ensures
        size == font_size(output@, terminal),
{
    let (width, height) = match parse_dimensions(output) {
        Ok(sizes) => sizes,
        Err(error) => {
            return Err(error);
        },
    };
    if width > u32::MAX - 2 || height > u32::MAX - 2 || terminal.width == 0 || terminal.height
        == 0 {
        return Err(DisplayError::DoesNotFit);
    }
    Ok(((width + 2) / (terminal.width as u32), (height + 2) / (terminal.height as u32)))
}

/// `a * b`, if it fits in 32 bits.
fn times(a: u32, b: u32) -> (product: Option<u32>)
    ensures
        match product {
            Some(p) => p == a * b,
            None => a * b > u32::MAX,
        },
{
    assert(a * b <= u32::MAX * u32::MAX) by (nonlinear_arith)
        requires
            a <= u32::MAX,
            b <= u32::MAX,
    ;
    let wide: u64 = (a as u64) * (b as u64);
    if wide > u32::MAX as u64 {
        None
    } else {
        Some(wide as u32)
    }
}

/// Where an image of `image` pixels is drawn inside `block`.
pub fn place_image(block: Rect, font: (u32, u32), image: (u32, u32)) -> (place: Option<Placement>)
    ensures
        place == placement(block, font, image),
{
    if block.width == 0 || block.height == 0 {
        return None;
    }
    let x = match times(block.x as u32 + 1, font.0) {
        Some(x) => x,
        None => {
            return None;
        },
    };
    let y = match times(block.y as u32 + 1, font.1) {
        Some(y) => y,
        None => {
            return None;
        },
    };
    let max_width = match times(block.width as u32 - 1, font.0) {
        Some(max_width) => max_width,
        None => {
            return None;
        },
    };
    let max_height = match times(block.height as u32 - 1, font.1) {
        Some(max_height) => max_height,
        None => {
            return None;
        },
    };
    let (mut width, mut height) = image;
    if width > max_width {
        height = match times(max_width, height) {
            Some(scaled) => scaled / width,
            None => {
                return None;
            },
        };
        width = max_width;
    }
    if height > max_height {
        width = match times(max_height, width) {
            Some(scaled) => scaled / height,
            None => {
                return None;
            },
        };
        height = max_height;
    }
    Some(Placement { x, y, width, height })
}

impl ImageDisplay {
    /// The places where the program is looked for, in the order in which they
    /// are tried.
    pub fn search_paths(env_path: &str) -> (paths: Vec<String>)
        ensures
            paths@.map_values(|p: String| p@) == search_path_views(env_path@),
    {
        let mut paths: Vec<String> = Vec::new();
        if env_path.unicode_len() != 0 {
            paths.push(String::from_str(env_path));
        }
        paths.push(String::from_str("/usr/lib/w3m/w3mimgdisplay"));
        paths.push(String::from_str("/usr/libexec/w3m/w3mimgdisplay"));
        paths.push(String::from_str("/usr/lib64/w3m/w3mimgdisplay"));
        paths.push(String::from_str("/usr/libexec64/w3m/w3mimgdisplay"));
        paths.push(String::from_str("/usr/local/libexec/w3m/w3mimgdisplay"));
        paths
    }

    /// Picks the program among the places where it was looked for, each with
    /// whether something exists there: the last that exists is taken.
    pub fn new(found: Vec<(String, bool)>) -> (display: Result<ImageDisplay, DisplayError>)
        ensures
            match display {
                Ok(program) => last_present(found@, found@.len()) matches Some(at) && program@
                    == found@[at as int].0@,
                Err(error) => last_present(found@, found@.len()).is_none() && error
                    == DisplayError::Unavailable,
            },
    {
        let mut i: usize = found.len();
        while i > 0
            invariant
                i <= found.len(),
                last_present(found@, found@.len()) == last_present(found@, i as nat),
            decreases i,
        {
            if found[i - 1].1 {
                return Ok(ImageDisplay { path: found[i - 1].0.clone() });
            }
            i = i - 1;
        }
        Err(DisplayError::Unavailable)
    }

    /// The path of the program.
    pub fn path(&self) -> (path: &String)
        ensures
            path@ == self@,
    {
        &self.path
    }

    /// What the program is asked to learn the size of the image at `path`.
    pub fn image_query(image_path: &str) -> (query: String)
        ensures
            query@ == size_query(image_path@),
    {
        let mut query = String::from_str("5;");
        query.append(image_path);
        query.append("\n");
        query
    }

    /// What the program is told to draw the image at `image_path` inside
    /// `block`, a cell being `font` pixels large and the image `image` pixels.
    pub fn w3m_input(image_path: &str, block: Rect, font: (u32, u32), image: (u32, u32)) -> (input:
        Result<String, DisplayError>)
        ensures
            match input {
                Ok(text) => placement(block, font, image) matches Some(place) && text@
                    == draw_command(place, image_path@),
                Err(error) => placement(block, font, image).is_none() && error
                    == DisplayError::DoesNotFit,
            },
    {
        let place = match place_image(block, font, image) {
            Some(place) => place,
            None => {
                return Err(DisplayError::DoesNotFit);
            },
        };
        let mut text = String::from_str("0;1;");
        text.append(to_decimal(place.x as usize).as_str());
        text.append(";");
        text.append(to_decimal(place.y as usize).as_str());
        text.append(";");
        text.append(to_decimal(place.width as usize).as_str());
        text.append(";");
        text.append(to_decimal(place.height as usize).as_str());
        text.append(";;;;;");
        text.append(image_path);
        text.append("\n4;\n3;\n");
        Ok(text)
    }
}

} // verus!
