//! Label synthesis: rendering symbols and completion items returned by the
//! language server into presentation-ready labels for the editor's UI.
//!
//! Symbols are rendered as native-looking declaration fragments (`def name;
//! end`, `class name; end`, the uppercased name for constants) with the
//! name's bytes highlighted and the name isolated for fuzzy filtering.
//! Completion items keep their label text and are tagged with a highlight
//! scope chosen by kind. A kind without a rendering rule yields no label,
//! which is an expected outcome, never a failure.

use vstd::prelude::*;
use vstd::string::StringExecFns;
use vstd::utf8::encode_utf8;
use vstd::utf8::is_ascii_chars;
use vstd::utf8::is_ascii_chars_encode_utf8;
use crate::SorbetExtension;

verus! {

/// Kind of a symbol reported by the language server. Kinds without a
/// rendering rule are collapsed into `Other`.
#[derive(Clone, Copy, PartialEq, Eq, Structural, Debug)]
pub enum SymbolKind {
    Method,
    Class,
    Module,
    Constant,
    Other,
}

/// Kind of a completion item. Kinds without a rendering rule are collapsed
/// into `Other`.
#[derive(Clone, Copy, PartialEq, Eq, Structural, Debug)]
pub enum CompletionKind {
    Class,
    Constant,
    Method,
    Module,
    Reference,
    Keyword,
    Other,
}

/// A symbol to render: its name and kind.
#[derive(Clone, Debug)]
pub struct Symbol {
    pub name: String,
    pub kind: SymbolKind,
}

/// A completion item to render: its label text and optional kind.
#[derive(Clone, Debug)]
pub struct Completion {
    pub label: String,
    pub kind: Option<CompletionKind>,
}

/// A byte range into a label's text.
#[derive(Clone, Debug, PartialEq, Eq)]
pub struct ByteRange {
    pub start: usize,
    pub end: usize,
}

/// One piece of a rendered label: either a range of the synthesized code
/// or a literal text run, optionally tagged with a highlight scope.
#[derive(Clone, Debug, PartialEq, Eq)]
pub enum CodeLabelSpan {
    CodeRange(ByteRange),
    Literal { text: String, highlight_name: Option<String> },
}

/// A rendered label: synthesized display code, highlighted spans, and the
/// sub-range used for fuzzy-match filtering.
#[derive(Clone, Debug, PartialEq, Eq)]
pub struct CodeLabel {
    pub code: String,
    pub spans: Vec<CodeLabelSpan>,
    pub filter_range: ByteRange,
}

/// Mathematical model of a byte range.
#[verifier::ext_equal]
pub ghost struct RangeModel {
    pub start: int,
    pub end: int,
}

/// Mathematical model of a label span.
#[verifier::ext_equal]
pub ghost enum SpanModel {
    CodeRange(RangeModel),
    Literal { text: Seq<char>, highlight_name: Option<Seq<char>> },
}

/// Mathematical model of a rendered label.
#[verifier::ext_equal]
pub ghost struct LabelModel {
    pub code: Seq<char>,
    pub spans: Seq<SpanModel>,
    pub filter_range: RangeModel,
}

impl View for ByteRange {
    type V = RangeModel;

    open spec fn view(&self) -> RangeModel {
        RangeModel { start: self.start as int, end: self.end as int }
    }
}

impl DeepView for ByteRange {
    type V = RangeModel;

    open spec fn deep_view(&self) -> RangeModel {
        self.view()
    }
}

impl View for CodeLabelSpan {
    type V = SpanModel;

    open spec fn view(&self) -> SpanModel {
        match self {
            CodeLabelSpan::CodeRange(r) => SpanModel::CodeRange(r@),
            CodeLabelSpan::Literal { text, highlight_name } => SpanModel::Literal {
                text: text@,
                highlight_name: highlight_name.deep_view(),
            },
        }
    }
}

impl DeepView for CodeLabelSpan {
    type V = SpanModel;

    open spec fn deep_view(&self) -> SpanModel {
        self.view()
    }
}

impl View for CodeLabel {
    type V = LabelModel;

    open spec fn view(&self) -> LabelModel {
        LabelModel {
            code: self.code@,
            spans: self.spans.deep_view(),
            filter_range: self.filter_range@,
        }
    }
}

impl DeepView for CodeLabel {
    type V = LabelModel;

    open spec fn deep_view(&self) -> LabelModel {
        self.view()
    }
}

/// Length in bytes of the UTF-8 encoding of a character sequence. Byte
/// offsets into labels are computed against this measure, as `str::len`
/// returns it.
pub open spec fn byte_len(s: Seq<char>) -> nat {
    encode_utf8(s).len()
}

/// The characters of `s.to_uppercase()`. Unicode uppercasing is a function
/// of the characters alone; its full definition is the Unicode table, so
/// the result is named rather than written out.
pub uninterp spec fn upper_of(s: Seq<char>) -> Seq<char>;

/// Relies on `str::to_uppercase`: the result depends on the characters
/// alone.
#[verifier::external_body]
fn uppercase(s: &str) -> (r: String)
    ensures
        r@ == upper_of(s@),
{
    s.to_uppercase()
}

/// The label synthesized for a symbol, by kind; `None` when the kind has
/// no rendering rule. The filter range always covers the name's length
/// starting at zero, while the highlight span sits at the name's offset
/// within the synthesized code.
pub open spec fn symbol_label_model(name: Seq<char>, kind: SymbolKind) -> Option<LabelModel> {
    let len = byte_len(name) as int;
    match kind {
        SymbolKind::Method => Some(
            LabelModel {
                code: "def "@ + name + "; end"@,
                spans: seq![SpanModel::CodeRange(RangeModel { start: 4, end: 4 + len })],
                filter_range: RangeModel { start: 0, end: len },
            },
        ),
        SymbolKind::Class | SymbolKind::Module => Some(
            LabelModel {
                code: "class "@ + name + "; end"@,
                spans: seq![SpanModel::CodeRange(RangeModel { start: 6, end: 6 + len })],
                filter_range: RangeModel { start: 0, end: len },
            },
        ),
        SymbolKind::Constant => Some(
            LabelModel {
                code: upper_of(name),
                spans: seq![SpanModel::CodeRange(RangeModel { start: 0, end: len })],
                filter_range: RangeModel { start: 0, end: len },
            },
        ),
        SymbolKind::Other => None,
    }
}

/// The highlight scope for a completion kind; `None` when the kind is
/// absent or unmapped.
pub open spec fn completion_scope(kind: Option<CompletionKind>) -> Option<Seq<char>> {
    match kind {
        Some(CompletionKind::Class) | Some(CompletionKind::Module) => Some("type"@),
        Some(CompletionKind::Constant) => Some("constant"@),
        Some(CompletionKind::Method) | Some(CompletionKind::Reference) => Some(
            "function.method"@,
        ),
        Some(CompletionKind::Keyword) => Some("keyword"@),
        _ => None,
    }
}

/// The label synthesized for a completion item: empty display code, one
/// literal span carrying the label text tagged with the kind's scope, and
/// a filter range over the whole label; `None` when the kind has no scope.
pub open spec fn completion_label_model(label: Seq<char>, kind: Option<CompletionKind>) -> Option<
    LabelModel,
> {
    match completion_scope(kind) {
        Some(scope) => Some(
            LabelModel {
                code: Seq::empty(),
                spans: seq![(SpanModel::Literal { text: label, highlight_name: Some(scope) })],
                filter_range: RangeModel { start: 0, end: byte_len(label) as int },
            },
        ),
        None => None,
    }
}

/// A label whose single highlighted span is the code range of `name_len`
/// bytes starting at `offset`, with the filter range covering the first
/// `name_len` bytes.
fn code_range_label(code: String, offset: usize, name_len: usize) -> (r: CodeLabel)
    requires
        offset + name_len <= usize::MAX,
    ensures
        r@ == (LabelModel {
            code: code@,
            spans: seq![
                SpanModel::CodeRange(
                    RangeModel { start: offset as int, end: offset + name_len },
                ),
            ],
            filter_range: RangeModel { start: 0, end: name_len as int },
        }),
{
    let mut spans: Vec<CodeLabelSpan> = Vec::new();
    spans.push(CodeLabelSpan::CodeRange(ByteRange { start: offset, end: offset + name_len }));
    let r = CodeLabel { code, spans, filter_range: ByteRange { start: 0, end: name_len } };
    proof {
        assert(r@.spans =~= seq![
            SpanModel::CodeRange(RangeModel { start: offset as int, end: offset + name_len }),
        ]);
        assert(r@ =~~= (LabelModel {
            code: r.code@,
            spans: r@.spans,
            filter_range: RangeModel { start: 0, end: name_len as int },
        }));
    }
    r
}

impl SorbetExtension {
    /// Renders a symbol into a presentation label, per its kind; kinds
    /// without a rendering rule yield no label.
    pub fn label_for_symbol(&self, symbol: Symbol) -> (r: Option<CodeLabel>)
        requires
            byte_len(symbol.name@) + 6 <= usize::MAX,
        ensures
            r.deep_view() == symbol_label_model(symbol.name@, symbol.kind),
    {
        let ghost n = symbol.name@;
        match symbol.kind {
            SymbolKind::Method => {
                let len = symbol.name.as_str().len();
                let mut code = "def ".to_owned();
                code.append(symbol.name.as_str());
                code.append("; end");
                let result = Some(code_range_label(code, 4, len));
                proof {
                    assert(result.deep_view() =~~= symbol_label_model(n, SymbolKind::Method));
                }
                result
            },
            SymbolKind::Class | SymbolKind::Module => {
                let len = symbol.name.as_str().len();
                let mut code = "class ".to_owned();
                code.append(symbol.name.as_str());
                code.append("; end");
                let result = Some(code_range_label(code, 6, len));
                proof {
                    assert(result.deep_view() =~~= symbol_label_model(n, symbol.kind));
                }
                result
            },
            SymbolKind::Constant => {
                let len = symbol.name.as_str().len();
                let code = uppercase(symbol.name.as_str());
                let result = Some(code_range_label(code, 0, len));
                proof {
                    assert(result.deep_view() =~~= symbol_label_model(n, SymbolKind::Constant));
                }
                result
            },
            SymbolKind::Other => None,
        }
    }

    /// Renders a completion item into a presentation label: the label text
    /// as one literal span tagged with the kind's highlight scope; kinds
    /// without a scope, or an absent kind, yield no label.
    pub fn label_for_completion(&self, completion: Completion) -> (r: Option<CodeLabel>)
        requires
            byte_len(completion.label@) <= usize::MAX,
        ensures
            r.deep_view() == completion_label_model(completion.label@, completion.kind),
    {
        let ghost l = completion.label@;
        let scope: &'static str = match completion.kind {
            Some(CompletionKind::Class) | Some(CompletionKind::Module) => "type",
            Some(CompletionKind::Constant) => "constant",
            Some(CompletionKind::Method) | Some(CompletionKind::Reference) => "function.method",
            Some(CompletionKind::Keyword) => "keyword",
            _ => {
                return None;
            },
        };
        let len = completion.label.as_str().len();
        let mut spans: Vec<CodeLabelSpan> = Vec::new();
        spans.push(
            CodeLabelSpan::Literal {
                text: completion.label,
                highlight_name: Some(scope.to_owned()),
            },
        );
        let result = Some(
            CodeLabel {
                code: String::new(),
                spans,
                filter_range: ByteRange { start: 0, end: len },
            },
        );
        proof {
            assert(result->0@.spans =~= seq![
                (SpanModel::Literal { text: l, highlight_name: Some(scope@) }),
            ]);
            assert(result.deep_view() =~~= completion_label_model(l, completion.kind));
        }
        result
    }
}

/// A symbol label exists exactly for the method, class, module and
/// constant kinds; every other kind yields no label.
pub proof fn lemma_symbol_label_presence(name: Seq<char>, kind: SymbolKind)
    ensures
        symbol_label_model(name, kind) is Some <==> !(kind is Other),
{
}

/// The method label in full: the display code is `def ` + name + `; end`,
/// the single highlight span covers the name's bytes at offset 4, and the
/// filter range covers the name's length starting at 0.
pub proof fn lemma_method_label(name: Seq<char>)
    ensures
        ({
            let l = symbol_label_model(name, SymbolKind::Method)->0;
            &&& symbol_label_model(name, SymbolKind::Method) is Some
            &&& l.code == "def "@ + name + "; end"@
            &&& l.spans =~= seq![
                SpanModel::CodeRange(
                    (RangeModel { start: 4, end: 4 + byte_len(name) as int }),
                ),
            ]
            &&& l.filter_range == (RangeModel { start: 0, end: byte_len(name) as int })
        }),
{
}

/// The constant label in full: the display code is the uppercased name
/// (original casing discarded), and both the highlight span and the filter
/// range cover the name's length starting at 0.
pub proof fn lemma_constant_label(name: Seq<char>)
    ensures
        ({
            let l = symbol_label_model(name, SymbolKind::Constant)->0;
            &&& symbol_label_model(name, SymbolKind::Constant) is Some
            &&& l.code == upper_of(name)
            &&& l.spans =~= seq![
                SpanModel::CodeRange((RangeModel { start: 0, end: byte_len(name) as int })),
            ]
            &&& l.filter_range == (RangeModel { start: 0, end: byte_len(name) as int })
        }),
{
}

/// A completion label exists exactly for the class, module, constant,
/// method, reference and keyword kinds; any other kind, and an absent
/// kind, yield no label.
pub proof fn lemma_completion_label_presence(label: Seq<char>, kind: Option<CompletionKind>)
    ensures
        completion_label_model(label, kind) is Some <==> (kind == Some(CompletionKind::Class)
            || kind == Some(CompletionKind::Module) || kind == Some(CompletionKind::Constant)
            || kind == Some(CompletionKind::Method) || kind == Some(CompletionKind::Reference)
            || kind == Some(CompletionKind::Keyword)),
        kind is None ==> completion_label_model(label, kind) is None,
{
}

/// Symbol rendering is pure: any two results that meet the contract of
/// `label_for_symbol` for the same descriptor have the same model, field
/// for field.
pub proof fn lemma_label_for_symbol_idempotent(
    name: Seq<char>,
    kind: SymbolKind,
    r1: Option<CodeLabel>,
    r2: Option<CodeLabel>,
)
    requires
        r1.deep_view() == symbol_label_model(name, kind),
        r2.deep_view() == symbol_label_model(name, kind),
    ensures
        r1.deep_view() == r2.deep_view(),
{
}

/// Completion rendering is pure: any two results that meet the contract of
/// `label_for_completion` for the same item have the same model, field for
/// field.
pub proof fn lemma_label_for_completion_idempotent(
    label: Seq<char>,
    kind: Option<CompletionKind>,
    r1: Option<CodeLabel>,
    r2: Option<CodeLabel>,
)
    requires
        r1.deep_view() == completion_label_model(label, kind),
        r2.deep_view() == completion_label_model(label, kind),
    ensures
        r1.deep_view() == r2.deep_view(),
{
}

/// UTF-8 byte length distributes over concatenation.
pub proof fn lemma_byte_len_concat(a: Seq<char>, b: Seq<char>)
    ensures
        byte_len(a + b) == byte_len(a) + byte_len(b),
    decreases a.len(),
{
    if a.len() == 0 {
        assert(a + b =~= b);
    } else {
        assert((a + b)[0] == a[0]);
        assert((a + b).drop_first() =~= a.drop_first() + b);
        lemma_byte_len_concat(a.drop_first(), b);
    }
}

/// The UTF-8 byte length of an ASCII character sequence is its length.
pub proof fn lemma_ascii_byte_len(s: Seq<char>)
    requires
        is_ascii_chars(s),
    ensures
        byte_len(s) == s.len(),
{
    is_ascii_chars_encode_utf8(s);
}

/// For the synthesized symbol labels built around the name (method, class
/// and module), the highlight span and the filter range are valid byte
/// sub-ranges of the display code.
pub proof fn lemma_synthesized_ranges_in_code(name: Seq<char>, kind: SymbolKind)
    requires
        kind is Method || kind is Class || kind is Module,
    ensures
        ({
            let l = symbol_label_model(name, kind)->0;
            &&& l.spans.len() == 1
            &&& l.spans[0] matches SpanModel::CodeRange(r) && 0 <= r.start <= r.end <= byte_len(
                l.code,
            )
            &&& 0 <= l.filter_range.start <= l.filter_range.end <= byte_len(l.code)
        }),
{
    let l = symbol_label_model(name, kind)->0;
    if kind is Method {
        reveal_strlit("def ");
        reveal_strlit("; end");
        assert(is_ascii_chars("def "@));
        assert(is_ascii_chars("; end"@));
        lemma_ascii_byte_len("def "@);
        lemma_ascii_byte_len("; end"@);
        lemma_byte_len_concat("def "@ + name, "; end"@);
        lemma_byte_len_concat("def "@, name);
    } else {
        reveal_strlit("class ");
        reveal_strlit("; end");
        assert(is_ascii_chars("class "@));
        assert(is_ascii_chars("; end"@));
        lemma_ascii_byte_len("class "@);
        lemma_ascii_byte_len("; end"@);
        lemma_byte_len_concat("class "@ + name, "; end"@);
        lemma_byte_len_concat("class "@, name);
    }
}

} // verus!
