//! The output variants of a job and the keys they are stored under.

use vstd::prelude::*;
use vstd::string::*;
use crate::ident::{id_text, law_id_text_is_injective, lemma_base32_text_len, render_id};

verus! {

/// The formats a variant can be asked for.  The `Static` ones hold a
/// single frame however many the input has.
#[derive(Clone, Copy, Debug, PartialEq, Eq, Structural)]
pub enum ImageFormat {
    Webp,
    Avif,
    Gif,
    WebpStatic,
    AvifStatic,
    PngStatic,
}

impl ImageFormat {
    /// Whether the format holds a single frame.
    pub open spec fn is_static_spec(self) -> bool {
        self == ImageFormat::WebpStatic || self == ImageFormat::AvifStatic
            || self == ImageFormat::PngStatic
    }

    /// Whether the format holds a single frame.
    #[verifier::when_used_as_spec(is_static_spec)]
    pub fn is_static(self) -> (single: bool)
        ensures
            single == self.is_static_spec(),
    {
        match self {
            ImageFormat::WebpStatic | ImageFormat::AvifStatic | ImageFormat::PngStatic => true,
            ImageFormat::Webp | ImageFormat::Avif | ImageFormat::Gif => false,
        }
    }

    /// The file extension of the format, as text.
    pub open spec fn extension_text(self) -> Seq<char> {
        match self {
            ImageFormat::Webp | ImageFormat::WebpStatic => "webp"@,
            ImageFormat::Avif | ImageFormat::AvifStatic => "avif"@,
            ImageFormat::Gif => "gif"@,
            ImageFormat::PngStatic => "png"@,
        }
    }

    /// The file extension that keys of this format end in.
    pub fn file_extension(self) -> (extension: &'static str)
        ensures
            extension@ == self.extension_text(),
    {
        match self {
            ImageFormat::Webp | ImageFormat::WebpStatic => "webp",
            ImageFormat::Avif | ImageFormat::AvifStatic => "avif",
            ImageFormat::Gif => "gif",
            ImageFormat::PngStatic => "png",
        }
    }

    /// The content type of the format, as text.
    pub open spec fn content_type_text(self) -> Seq<char> {
        match self {
            ImageFormat::Webp | ImageFormat::WebpStatic => "image/webp"@,
            ImageFormat::Avif | ImageFormat::AvifStatic => "image/avif"@,
            ImageFormat::Gif => "image/gif"@,
            ImageFormat::PngStatic => "image/png"@,
        }
    }

    /// The content type a variant of this format is stored with.
    pub fn content_type(self) -> (content_type: &'static str)
        ensures
            content_type@ == self.content_type_text(),
    {
        match self {
            ImageFormat::Webp | ImageFormat::WebpStatic => "image/webp",
            ImageFormat::Avif | ImageFormat::AvifStatic => "image/avif",
            ImageFormat::Gif => "image/gif",
            ImageFormat::PngStatic => "image/png",
        }
    }
}

/// What was asked of a variant: the factor by which the base size is
/// scaled, and the format.
#[derive(Clone, Copy, Debug, PartialEq, Eq, Structural)]
pub struct VariantRequest {
    pub scale: usize,
    pub format: ImageFormat,
}

/// One output of the decoder backend.
#[derive(Clone, Debug, PartialEq, Eq)]
pub struct Variant {
    /// The encoded image.
    pub data: Vec<u8>,
    /// Its width in pixels.
    pub width: usize,
    /// Its height in pixels.
    pub height: usize,
    /// What it was made for.
    pub request: VariantRequest,
}

/// A variant as a mathematical value.
pub struct VariantView {
    pub data: Seq<u8>,
    pub width: usize,
    pub height: usize,
    pub request: VariantRequest,
}

impl View for Variant {
    type V = VariantView;

    open spec fn view(&self) -> VariantView {
        VariantView {
            data: self.data@,
            width: self.width,
            height: self.height,
            request: self.request,
        }
    }
}

/// The views of a sequence of variants, in order.
pub open spec fn variants_view(variants: Seq<Variant>) -> Seq<VariantView> {
    Seq::new(variants.len(), |i: int| variants[i]@)
}

/// The decimal digit for `d`.
pub open spec fn decimal_digit(d: nat) -> char {
    seq!['0', '1', '2', '3', '4', '5', '6', '7', '8', '9'][d as int]
}

/// `n` in decimal, without leading zeros.
pub open spec fn decimal_text(n: nat) -> Seq<char>
    decreases n,
{
    if n < 10 {
        seq![decimal_digit(n)]
    } else {
        decimal_text(n / 10).push(decimal_digit(n % 10))
    }
}

/// The name of a variant below the prefix of its job: `static_` for a
/// single-frame format, the scale in decimal, `x.` and the extension, as
/// in `2x.webp` or `static_1x.png`.
pub open spec fn variant_name(request: VariantRequest) -> Seq<char> {
    (if request.format.is_static_spec() {
        "static_"@
    } else {
        Seq::<char>::empty()
    }) + decimal_text(request.scale as nat) + "x."@ + request.format.extension_text()
}

/// What the keys of a job's results begin with: `result/`, the task's
/// output prefix and the text of the job's identifier.
pub open spec fn result_prefix(output_prefix: Seq<char>, id: u128) -> Seq<char> {
    "result/"@ + output_prefix + id_text(id)
}

/// The key a variant is stored under: the prefix, `/` and the variant's
/// name.
pub open spec fn storage_key(prefix: Seq<char>, request: VariantRequest) -> Seq<char> {
    prefix + "/"@ + variant_name(request)
}

/// Whether a character is a decimal digit.
pub open spec fn is_decimal_digit(c: char) -> bool {
    '0' <= c <= '9'
}

/// A number in decimal has at least one character, and digits only.
pub proof fn lemma_decimal_text_is_digits(n: nat)
    ensures
        decimal_text(n).len() >= 1,
        forall|i: int| 0 <= i < decimal_text(n).len() ==> is_decimal_digit(#[trigger] decimal_text(n)[i]),
    decreases n,
{
    if n >= 10 {
        lemma_decimal_text_is_digits(n / 10);
    }
}

/// No digit stands for two values.
pub proof fn lemma_decimal_digit_is_injective(i: nat, j: nat)
    requires
        i < 10,
        j < 10,
        decimal_digit(i) == decimal_digit(j),
    ensures
        i == j,
{
}

/// No two numbers are written the same.
pub proof fn lemma_decimal_text_is_injective(a: nat, b: nat)
    requires
        decimal_text(a) == decimal_text(b),
    ensures
        a == b,
    decreases a,
{
    lemma_decimal_text_is_digits(a / 10);
    lemma_decimal_text_is_digits(b / 10);
    if a < 10 && b < 10 {
        assert(decimal_text(a)[0] == decimal_digit(a));
        assert(decimal_text(b)[0] == decimal_digit(b));
        lemma_decimal_digit_is_injective(a, b);
    } else if a >= 10 && b >= 10 {
        let text_a = decimal_text(a / 10).push(decimal_digit(a % 10));
        let text_b = decimal_text(b / 10).push(decimal_digit(b % 10));
        assert(decimal_text(a) == text_a);
        assert(decimal_text(b) == text_b);
        assert(text_a.last() == decimal_digit(a % 10));
        assert(text_b.last() == decimal_digit(b % 10));
        assert(text_a.drop_last() =~= decimal_text(a / 10));
        assert(text_b.drop_last() =~= decimal_text(b / 10));
        lemma_decimal_digit_is_injective(a % 10, b % 10);
        lemma_decimal_text_is_injective(a / 10, b / 10);
        assert(a == 10 * (a / 10) + a % 10);
        assert(b == 10 * (b / 10) + b % 10);
    } else if a < 10 {
        assert(decimal_text(a).len() == 1);
        assert(decimal_text(b).len() == decimal_text(b / 10).len() + 1);
    } else {
        assert(decimal_text(b).len() == 1);
        assert(decimal_text(a).len() == decimal_text(a / 10).len() + 1);
    }
}

/// The name of a variant without what marks a single frame: the scale,
/// `x.` and the extension.
pub open spec fn sized_name(request: VariantRequest) -> Seq<char> {
    decimal_text(request.scale as nat) + "x."@ + request.format.extension_text()
}

proof fn lemma_sized_name_splits(request: VariantRequest)
    ensures
        ({
            let digits = decimal_text(request.scale as nat);
            let name = sized_name(request);
            &&& digits.len() >= 1
            &&& name.len() == digits.len() + 2 + request.format.extension_text().len()
            &&& forall|i: int| 0 <= i < digits.len() ==> is_decimal_digit(#[trigger] name[i])
            &&& name[digits.len() as int] == 'x'
            &&& name.subrange(0, digits.len() as int) == digits
            &&& name.subrange(digits.len() as int + 2, name.len() as int)
                == request.format.extension_text()
        }),
{
    reveal_strlit("x.");
    let digits = decimal_text(request.scale as nat);
    let name = sized_name(request);
    lemma_decimal_text_is_digits(request.scale as nat);
    assert forall|i: int| 0 <= i < digits.len() implies is_decimal_digit(#[trigger] name[i]) by {
        assert(name[i] == digits[i]);
    }
    assert(name.subrange(0, digits.len() as int) =~= digits);
    assert(name.subrange(digits.len() as int + 2, name.len() as int)
        =~= request.format.extension_text());
}

proof fn lemma_extensions_differ(first: ImageFormat, second: ImageFormat)
    requires
        first.extension_text() == second.extension_text(),
        first.is_static_spec() == second.is_static_spec(),
    ensures
        first == second,
{
    reveal_strlit("webp");
    reveal_strlit("avif");
    reveal_strlit("gif");
    reveal_strlit("png");
    assert("webp"@[0] == 'w');
    assert("avif"@[0] == 'a');
    assert("gif"@[0] == 'g');
    assert("png"@[0] == 'p');
    assert(first.extension_text()[0] == second.extension_text()[0]);
}

proof fn lemma_sized_name_is_injective(first: VariantRequest, second: VariantRequest)
    requires
        sized_name(first) == sized_name(second),
        first.format.is_static_spec() == second.format.is_static_spec(),
    ensures
        first == second,
{
    lemma_sized_name_splits(first);
    lemma_sized_name_splits(second);
    let digits_a = decimal_text(first.scale as nat);
    let digits_b = decimal_text(second.scale as nat);
    let name = sized_name(first);
    if digits_a.len() < digits_b.len() {
        assert(is_decimal_digit(name[digits_a.len() as int]));
    }
    if digits_b.len() < digits_a.len() {
        assert(is_decimal_digit(name[digits_b.len() as int]));
    }
    lemma_decimal_text_is_injective(first.scale as nat, second.scale as nat);
    lemma_extensions_differ(first.format, second.format);
}

/// **Names keep apart.**  Two requests with the same name are the same
/// request: the variants of a job are stored under different keys unless
/// they answer the same request.
pub proof fn law_variant_names_are_distinct(first: VariantRequest, second: VariantRequest)
    requires
        variant_name(first) == variant_name(second),
    ensures
        first == second,
{
    reveal_strlit("static_");
    lemma_sized_name_splits(first);
    lemma_sized_name_splits(second);
    let mark = "static_"@;
    assert(variant_name(first) =~= (if first.format.is_static_spec() {
        mark
    } else {
        Seq::<char>::empty()
    }) + sized_name(first));
    assert(variant_name(second) =~= (if second.format.is_static_spec() {
        mark
    } else {
        Seq::<char>::empty()
    }) + sized_name(second));
    // A name begins with `s` exactly if it is marked: a scale begins with a digit.
    assert(first.format.is_static_spec() ==> variant_name(first)[0] == 's');
    assert(!first.format.is_static_spec() ==> variant_name(first)[0] == sized_name(first)[0]);
    assert(second.format.is_static_spec() ==> variant_name(second)[0] == 's');
    assert(!second.format.is_static_spec() ==> variant_name(second)[0] == sized_name(second)[0]);
    assert(first.format.is_static_spec() == second.format.is_static_spec());
    if first.format.is_static_spec() {
        assert((mark + sized_name(first)).subrange(7, (mark + sized_name(first)).len() as int)
            =~= sized_name(first));
        assert((mark + sized_name(second)).subrange(7, (mark + sized_name(second)).len() as int)
            =~= sized_name(second));
    } else {
        assert(Seq::<char>::empty() + sized_name(first) =~= sized_name(first));
        assert(Seq::<char>::empty() + sized_name(second) =~= sized_name(second));
    }
    lemma_sized_name_is_injective(first, second);
}

/// **Keys keep apart.**  For one output prefix, the keys of two variants
/// are the same only if the variants belong to the same job and answer
/// the same request.  So no job overwrites what another has stored, and
/// within a job only a repeated request meets its own key again.
pub proof fn law_keys_do_not_collide(
    output_prefix: Seq<char>,
    a: u128,
    first: VariantRequest,
    b: u128,
    second: VariantRequest,
)
    requires
        storage_key(result_prefix(output_prefix, a), first) == storage_key(
            result_prefix(output_prefix, b),
            second,
        ),
    ensures
        a == b,
        first == second,
{
    reveal_strlit("/");
    lemma_base32_text_len(a as nat, 26);
    lemma_base32_text_len(b as nat, 26);
    let lead = "result/"@ + output_prefix;
    let key_a = storage_key(result_prefix(output_prefix, a), first);
    let key_b = storage_key(result_prefix(output_prefix, b), second);
    assert(key_a =~= lead + id_text(a) + "/"@ + variant_name(first));
    assert(key_b =~= lead + id_text(b) + "/"@ + variant_name(second));
    let n = lead.len() as int;
    assert(key_a.subrange(n, n + 26) =~= id_text(a));
    assert(key_b.subrange(n, n + 26) =~= id_text(b));
    law_id_text_is_injective(a, b);
    assert(key_a.subrange(n + 27, key_a.len() as int) =~= variant_name(first));
    assert(key_b.subrange(n + 27, key_b.len() as int) =~= variant_name(second));
    law_variant_names_are_distinct(first, second);
}

fn digit_str(d: usize) -> (digit: &'static str)
    requires
        d < 10,
    ensures
        digit@ == seq![decimal_digit(d as nat)],
{
    proof {
        reveal_strlit("0");
        reveal_strlit("1");
        reveal_strlit("2");
        reveal_strlit("3");
        reveal_strlit("4");
        reveal_strlit("5");
        reveal_strlit("6");
        reveal_strlit("7");
        reveal_strlit("8");
        reveal_strlit("9");
    }
    let digit = match d {
        0 => "0",
        1 => "1",
        2 => "2",
        3 => "3",
        4 => "4",
        5 => "5",
        6 => "6",
        7 => "7",
        8 => "8",
        _ => "9",
    };
    assert(digit@ =~= seq![decimal_digit(d as nat)]);
    digit
}

/// Writes a number in decimal.
pub fn render_decimal(n: usize) -> (text: String)
    ensures
        text@ == decimal_text(n as nat),
    decreases n,
{
    if n < 10 {
        String::from_str(digit_str(n))
    } else {
        let mut text = render_decimal(n / 10);
        text.append(digit_str(n % 10));
        assert(text@ =~= decimal_text(n as nat));
        text
    }
}

/// Builds the prefix of a job's result keys.
pub fn make_result_prefix(output_prefix: &str, id: u128) -> (prefix: String)
    ensures
        prefix@ == result_prefix(output_prefix@, id),
{
    let mut prefix = String::from_str("result/");
    prefix.append(output_prefix);
    let id = render_id(id);
    prefix.append(id.as_str());
    prefix
}

impl VariantRequest {
    /// The name of the variant below the prefix of its job.
    pub fn name(&self) -> (name: String)
        ensures
            name@ == variant_name(*self),
    {
        let mut name = if self.format.is_static() {
            String::from_str("static_")
        } else {
            String::new()
        };
        let scale = render_decimal(self.scale);
        name.append(scale.as_str());
        name.append("x.");
        name.append(self.format.file_extension());
        name
    }

    /// The key the variant is stored under, below `prefix`.
    pub fn url(&self, prefix: &str) -> (key: String)
        ensures
            key@ == storage_key(prefix@, *self),
    {
        let mut key = String::from_str(prefix);
        key.append("/");
        let name = self.name();
        key.append(name.as_str());
        assert(key@ =~= storage_key(prefix@, *self));
        key
    }
}

impl Variant {
    /// The key the variant is stored under, below `prefix`.
    pub fn url(&self, prefix: &str) -> (key: String)
        ensures
            key@ == storage_key(prefix@, self@.request),
    {
        self.request.url(prefix)
    }

    /// The content type the variant is stored with.
    pub fn content_type(&self) -> (content_type: &'static str)
        ensures
            content_type@ == self@.request.format.content_type_text(),
    {
        self.request.format.content_type()
    }
}

} // verus!
