//! Parameter resolution: parse the raw argument text (a quoted relative path,
//! a delimiter, and a compression-level integer), validate it, and resolve the
//! path against the project-root anchor.
//!
//! Resolution is pure: it never touches the filesystem. The caller probes the
//! resolved path and hands the outcome to [`confirm_file_exists`], so an
//! out-of-range level is rejected before any file access is attempted.

use crate::Span;
use vstd::prelude::*;
use vstd::string::StringSliceAdditionalSpecFns;

verus! {

/// A byte of horizontal or vertical whitespace between tokens.
pub open spec fn is_space(b: u8) -> bool {
    b == 32 || b == 9 || b == 10 || b == 13
}

/// A decimal digit byte.
pub open spec fn is_digit(b: u8) -> bool {
    48 <= b <= 57
}

/// A byte that may continue an integer literal: a digit or an underscore.
pub open spec fn is_int_char(b: u8) -> bool {
    is_digit(b) || b == 95
}

/// The first index at or after `i` that does not hold whitespace.
pub open spec fn skip_spaces(s: Seq<u8>, i: int) -> int
    recommends
        0 <= i <= s.len(),
    decreases s.len() - i,
{
    if i < s.len() && is_space(s[i]) {
        skip_spaces(s, i + 1)
    } else {
        i
    }
}

/// Scan of a string literal's body from index `i` (just past the opening
/// quote) with the unescaped content collected so far in `acc`. Yields the
/// full content and the index just past the closing quote, or nothing when
/// the literal is unterminated or holds an unsupported escape. The accepted
/// escapes are `\"` and `\\`.
pub open spec fn lit_scan(s: Seq<u8>, i: int, acc: Seq<u8>) -> Option<(Seq<u8>, int)>
    recommends
        0 <= i <= s.len(),
    decreases s.len() - i,
{
    if i >= s.len() {
        None
    } else if s[i] == 34 {
        Some((acc, i + 1))
    } else if s[i] == 92 {
        if i + 1 < s.len() && (s[i + 1] == 34 || s[i + 1] == 92) {
            lit_scan(s, i + 2, acc.push(s[i + 1]))
        } else {
            None
        }
    } else {
        lit_scan(s, i + 1, acc.push(s[i]))
    }
}

/// The first index at or after `i` that does not continue an integer literal.
pub open spec fn int_end(s: Seq<u8>, i: int) -> int
    recommends
        0 <= i <= s.len(),
    decreases s.len() - i,
{
    if i < s.len() && is_int_char(s[i]) {
        int_end(s, i + 1)
    } else {
        i
    }
}

/// The base-10 value of the integer literal running from `i` to its end,
/// accumulated onto `acc`; underscores are separators and carry no value.
pub open spec fn digits_value(s: Seq<u8>, i: int, acc: int) -> int
    recommends
        0 <= i <= s.len(),
    decreases s.len() - i,
{
    if i < s.len() && is_int_char(s[i]) {
        if s[i] == 95 {
            digits_value(s, i + 1, acc)
        } else {
            digits_value(s, i + 1, acc * 10 + (s[i] - 48))
        }
    } else {
        acc
    }
}

/// A source range in the mathematical model, mirroring [`Span`].
pub struct SpanModel {
    pub start: int,
    pub end: int,
}

/// The model value of an executable [`Span`].
pub open spec fn abs_span(s: Span) -> SpanModel {
    SpanModel { start: s.start as int, end: s.end as int }
}

/// The span pointing at the single byte at `p`, or at the input's end when
/// `p` runs past it.
pub open spec fn point_span(s: Seq<u8>, p: int) -> SpanModel {
    SpanModel { start: p, end: if p < s.len() { p + 1 } else { p } }
}

/// What resolution yields on given argument text and project root: either the
/// resolved parameters or the first failure, each with the span it is
/// reported at.
pub enum Resolution {
    Resolved { resolved_path: Seq<u8>, path_span: SpanModel, level: int },
    MalformedPath { span: SpanModel },
    MalformedLevel { span: SpanModel },
    ExtraArguments { span: SpanModel },
    RootUnavailable { span: SpanModel },
    LevelOutOfRange { span: SpanModel },
}

/// The project root handed in by the caller, as a model value.
pub open spec fn root_model(root: &Option<Vec<u8>>) -> Option<Seq<u8>> {
    match root {
        Some(v) => Some(v@),
        None => None,
    }
}

/// The resolution pipeline on the model: parse the path literal, the
/// delimiter and the level literal, reject leftover input, require the
/// project root, validate the level range, and join root and relative path.
pub open spec fn spec_resolve(s: Seq<u8>, root: Option<Seq<u8>>) -> Resolution {
    let p0 = skip_spaces(s, 0);
    if !(p0 < s.len() && s[p0] == 34) {
        Resolution::MalformedPath { span: point_span(s, p0) }
    } else {
        match lit_scan(s, p0 + 1, Seq::<u8>::empty()) {
            None => Resolution::MalformedPath { span: SpanModel { start: p0, end: s.len() as int } },
            Some(ce) => {
                let rel = ce.0;
                let p1 = ce.1;
                let p2 = skip_spaces(s, p1);
                if !(p2 < s.len() && s[p2] == 44) {
                    Resolution::MalformedLevel { span: point_span(s, p2) }
                } else {
                    let p3 = skip_spaces(s, p2 + 1);
                    if !(p3 < s.len() && is_digit(s[p3])) {
                        Resolution::MalformedLevel { span: point_span(s, p3) }
                    } else {
                        let p4 = int_end(s, p3);
                        let p5 = skip_spaces(s, p4);
                        if p5 != s.len() {
                            Resolution::ExtraArguments {
                                span: SpanModel { start: p5, end: s.len() as int },
                            }
                        } else {
                            match root {
                                None => Resolution::RootUnavailable {
                                    span: SpanModel { start: p0, end: p1 },
                                },
                                Some(rt) => {
                                    let v = digits_value(s, p3, 0);
                                    if !(1 <= v <= 9) {
                                        Resolution::LevelOutOfRange {
                                            span: SpanModel { start: p3, end: p4 },
                                        }
                                    } else {
                                        Resolution::Resolved {
                                            resolved_path: rt + seq![47u8] + rel,
                                            path_span: SpanModel { start: p0, end: p1 },
                                            level: v,
                                        }
                                    }
                                },
                            }
                        }
                    }
                }
            },
        }
    }
}

/// Boundary validation, in general: over every argument text and every
/// project root, resolution hands out a compression level only when it lies
/// in `1..=9`; any other literal value is reported as out of range, never
/// clamped into parameters.
pub proof fn lemma_resolved_level_in_range(s: Seq<u8>, root: Option<Seq<u8>>)
    ensures
        spec_resolve(s, root) matches Resolution::Resolved { level, .. } ==> 1 <= level <= 9,
{
}

/// A structured resolution failure: which check failed, where in the
/// argument text it is reported, and for a missing file the resolved path.
#[derive(Debug)]
pub enum ResolveError {
    MalformedPathLiteral { span: Span },
    MalformedLevelLiteral { span: Span },
    TooManyArguments { span: Span },
    EnvUnavailable { span: Span },
    LevelOutOfRange { span: Span },
    FileNotFound { span: Span, resolved_path: Vec<u8> },
}

impl ResolveError {
    /// The span the failure is reported at.
    pub open spec fn spec_span(&self) -> Span {
        match self {
            ResolveError::MalformedPathLiteral { span } => *span,
            ResolveError::MalformedLevelLiteral { span } => *span,
            ResolveError::TooManyArguments { span } => *span,
            ResolveError::EnvUnavailable { span } => *span,
            ResolveError::LevelOutOfRange { span } => *span,
            ResolveError::FileNotFound { span, .. } => *span,
        }
    }

    /// The span the failure is reported at.
    pub fn span(&self) -> (s: Span)
        ensures
            s == self.spec_span(),
    {
        match self {
            ResolveError::MalformedPathLiteral { span } => *span,
            ResolveError::MalformedLevelLiteral { span } => *span,
            ResolveError::TooManyArguments { span } => *span,
            ResolveError::EnvUnavailable { span } => *span,
            ResolveError::LevelOutOfRange { span } => *span,
            ResolveError::FileNotFound { span, .. } => *span,
        }
    }

    /// A human-readable message, one fixed text per failure; for a missing
    /// file it names the resolved path, so the diagnostic shows where the
    /// file was looked for.
    pub fn message(&self) -> (m: Vec<u8>)
        ensures
            self matches ResolveError::MalformedPathLiteral { .. } ==> m@
                == "expected a string literal for the file path".spec_bytes(),
            self matches ResolveError::MalformedLevelLiteral { .. } ==> m@
                == "expected `,` and an integer literal for the compression level".spec_bytes(),
            self matches ResolveError::TooManyArguments { .. } ==> m@
                == "just file path and compression level parameters are supported".spec_bytes(),
            self matches ResolveError::EnvUnavailable { .. } ==> m@
                == "the `CARGO_MANIFEST_DIR` variable is not available".spec_bytes(),
            self matches ResolveError::LevelOutOfRange { .. } ==> m@
                == "compression level must be in range `1..=9`".spec_bytes(),
            self matches ResolveError::FileNotFound { resolved_path, .. } ==> m@ == "file `".spec_bytes()
                + resolved_path@ + "` does not exist".spec_bytes(),
            self matches ResolveError::FileNotFound { resolved_path, .. } ==> exists|k: int|
                0 <= k && k + resolved_path@.len() <= m@.len() && #[trigger] m@.subrange(
                    k,
                    k + resolved_path@.len(),
                ) == resolved_path@,
    {
        match self {
            ResolveError::MalformedPathLiteral { .. } => bytes_of(
                "expected a string literal for the file path",
            ),
            ResolveError::MalformedLevelLiteral { .. } => bytes_of(
                "expected `,` and an integer literal for the compression level",
            ),
            ResolveError::TooManyArguments { .. } => bytes_of(
                "just file path and compression level parameters are supported",
            ),
            ResolveError::EnvUnavailable { .. } => bytes_of(
                "the `CARGO_MANIFEST_DIR` variable is not available",
            ),
            ResolveError::LevelOutOfRange { .. } => bytes_of(
                "compression level must be in range `1..=9`",
            ),
            ResolveError::FileNotFound { resolved_path, .. } => {
                let mut m = bytes_of("file `");
                let ghost k = m@.len() as int;
                let mut middle = vstd::slice::slice_to_vec(resolved_path.as_slice());
                m.append(&mut middle);
                let mut suffix = bytes_of("` does not exist");
                m.append(&mut suffix);
                proof {
                    assert(m@.subrange(k, k + resolved_path@.len()) =~= resolved_path@);
                }
                m
            },
        }
    }
}

/// The bytes of a literal message.
fn bytes_of(s: &str) -> (r: Vec<u8>)
    ensures
        r@ == s.spec_bytes(),
{
    vstd::slice::slice_to_vec(s.as_bytes())
}

/// Parameters whose text and level have been validated and whose path has
/// been resolved, awaiting only the existence check on the resolved path.
pub struct PendingParams {
    pub resolved_path: Vec<u8>,
    pub path_span: Span,
    pub compression_level: u8,
}

impl PendingParams {
    /// The level was validated before construction.
    pub open spec fn wf(&self) -> bool {
        1 <= self.compression_level <= 9
    }
}

/// Validated parameters for one compression: the resolved path of an existing
/// file and a compression level in `1..=9`. Constructed once, consumed once.
pub struct CompressParams {
    pub file_path: Vec<u8>,
    pub compression_level: u8,
}

impl CompressParams {
    /// The level was validated before construction.
    pub open spec fn wf(&self) -> bool {
        1 <= self.compression_level <= 9
    }
}

/// The first index at or after `from` in `input` that holds no whitespace.
fn skip_spaces_exec(input: &[u8], from: usize) -> (r: usize)
    requires
        from <= input@.len(),
    ensures
        r as int == skip_spaces(input@, from as int),
        from <= r <= input@.len(),
{
    let ghost s = input@;
    let mut i = from;
    loop
        invariant
            from <= i <= s.len(),
            s == input@,
            skip_spaces(s, from as int) == skip_spaces(s, i as int),
        ensures
            from <= i <= s.len(),
            i as int == skip_spaces(s, from as int),
        decreases s.len() - i,
    {
        if i >= input.len() {
            break ;
        }
        let b = input[i];
        if !(b == 32 || b == 9 || b == 10 || b == 13) {
            break ;
        }
        i = i + 1;
    }
    i
}

/// Scan a string literal's body from `start` (just past the opening quote),
/// unescaping as it goes; yields the content and the index just past the
/// closing quote, or nothing on an unterminated literal or a bad escape.
fn scan_string_literal(input: &[u8], start: usize) -> (r: Option<(Vec<u8>, usize)>)
    requires
        start <= input@.len(),
    ensures
        r matches Some(ce) ==> {
            &&& lit_scan(input@, start as int, Seq::<u8>::empty()) == Some((ce.0@, ce.1 as int))
            &&& start <= ce.1 <= input@.len()
        },
        r is None ==> lit_scan(input@, start as int, Seq::<u8>::empty()) is None,
{
    let ghost s = input@;
    let mut content: Vec<u8> = Vec::new();
    let mut j = start;
    loop
        invariant
            start <= j <= s.len(),
            s == input@,
            lit_scan(s, start as int, Seq::<u8>::empty()) == lit_scan(s, j as int, content@),
        decreases s.len() - j,
    {
        if j >= input.len() {
            return None;
        }
        let b = input[j];
        if b == 34 {
            return Some((content, j + 1));
        } else if b == 92 {
            if j + 1 < input.len() && (input[j + 1] == 34 || input[j + 1] == 92) {
                content.push(input[j + 1]);
                j = j + 2;
            } else {
                return None;
            }
        } else {
            content.push(b);
            j = j + 1;
        }
    }
}

/// Scan an integer literal from `from`: yields the index past its last byte
/// and its value, saturated above 255 (every saturated value is out of the
/// accepted level range anyway).
fn scan_level(input: &[u8], from: usize) -> (r: (u32, usize))
    requires
        from <= input@.len(),
    ensures
        r.1 as int == int_end(input@, from as int),
        from <= r.1 <= input@.len(),
        ({
            let total = digits_value(input@, from as int, 0);
            (total <= 255 && r.0 as int == total) || (total > 255 && r.0 > 255)
        }),
{
    let ghost s = input@;
    let mut v: u32 = 0;
    let ghost mut gv: int = 0int;
    let mut j = from;
    loop
        invariant
            from <= j <= s.len(),
            s == input@,
            int_end(s, from as int) == int_end(s, j as int),
            digits_value(s, from as int, 0) == digits_value(s, j as int, gv),
            gv >= 0,
            (gv <= 255 && v as int == gv) || (gv > 255 && v > 255),
            v <= 2559,
        ensures
            j as int == int_end(s, from as int),
            from <= j <= s.len(),
            ({
                let total = digits_value(s, from as int, 0);
                (total <= 255 && v as int == total) || (total > 255 && v > 255)
            }),
        decreases s.len() - j,
    {
        if j >= input.len() {
            break ;
        }
        let b = input[j];
        if b == 95 {
            j = j + 1;
        } else if 48 <= b && b <= 57 {
            if v <= 255 {
                v = v * 10 + (b - 48) as u32;
            }
            proof {
                gv = gv * 10 + (b - 48) as int;
            }
            j = j + 1;
        } else {
            break ;
        }
    }
    (v, j)
}

/// Resolve the raw argument text against the project root: parse the quoted
/// relative path, the `,` delimiter and the level literal, reject leftover
/// input, require the root, validate the level against `1..=9`, and join
/// root, `/` and relative path. The path literal accepts the `\"` and `\\`
/// escapes only; any other escape is a malformed literal. Pure: no file
/// access; the existence check follows in [`confirm_file_exists`]. Returns
/// exactly what the model [`spec_resolve`] yields on the same input.
pub fn resolve(input: &[u8], manifest_dir: &Option<Vec<u8>>) -> (r: Result<
    PendingParams,
    ResolveError,
>)
    ensures
        ({
            let out = spec_resolve(input@, root_model(manifest_dir));
            match r {
                Ok(p) => {
                    &&& out matches Resolution::Resolved { resolved_path, path_span, level }
                    &&& p.resolved_path@ == resolved_path
                    &&& abs_span(p.path_span) == path_span
                    &&& p.compression_level as int == level
                },
                Err(e) => match e {
                    ResolveError::MalformedPathLiteral { span } => out matches
                        Resolution::MalformedPath { span: m } && abs_span(span) == m,
                    ResolveError::MalformedLevelLiteral { span } => out matches
                        Resolution::MalformedLevel { span: m } && abs_span(span) == m,
                    ResolveError::TooManyArguments { span } => out matches
                        Resolution::ExtraArguments { span: m } && abs_span(span) == m,
                    ResolveError::EnvUnavailable { span } => out matches
                        Resolution::RootUnavailable { span: m } && abs_span(span) == m,
                    ResolveError::LevelOutOfRange { span } => out matches
                        Resolution::LevelOutOfRange { span: m } && abs_span(span) == m,
                    ResolveError::FileNotFound { .. } => false,
                },
            }
        }),
        r matches Ok(p) ==> p.wf(),
{
    let ghost s = input@;
    let n = input.len();
    let p0 = skip_spaces_exec(input, 0);
    if p0 >= n || input[p0] != 34 {
        let end = if p0 < n {
            p0 + 1
        } else {
            p0
        };
        return Err(ResolveError::MalformedPathLiteral { span: Span { start: p0, end } });
    }
    let (rel, p1) = match scan_string_literal(input, p0 + 1) {
        Some(ce) => ce,
        None => {
            return Err(ResolveError::MalformedPathLiteral { span: Span { start: p0, end: n } });
        },
    };
    let p2 = skip_spaces_exec(input, p1);
    if p2 >= n || input[p2] != 44 {
        let end = if p2 < n {
            p2 + 1
        } else {
            p2
        };
        return Err(ResolveError::MalformedLevelLiteral { span: Span { start: p2, end } });
    }
    let p3 = skip_spaces_exec(input, p2 + 1);
    if p3 >= n || input[p3] < 48 || input[p3] > 57 {
        let end = if p3 < n {
            p3 + 1
        } else {
            p3
        };
        return Err(ResolveError::MalformedLevelLiteral { span: Span { start: p3, end } });
    }
    let (v, p4) = scan_level(input, p3);
    let p5 = skip_spaces_exec(input, p4);
    if p5 != n {
        return Err(ResolveError::TooManyArguments { span: Span { start: p5, end: n } });
    }
    let root = match manifest_dir {
        Some(d) => d,
        None => {
            return Err(ResolveError::EnvUnavailable { span: Span { start: p0, end: p1 } });
        },
    };
    if v < 1 || v > 9 {
        return Err(ResolveError::LevelOutOfRange { span: Span { start: p3, end: p4 } });
    }
    let mut resolved = vstd::slice::slice_to_vec(root.as_slice());
    resolved.push(47);
    let mut rel_tail = rel;
    resolved.append(&mut rel_tail);
    proof {
        assert(resolved@ =~= root@ + seq![47u8] + rel@);
    }
    Ok(
        PendingParams {
            resolved_path: resolved,
            path_span: Span { start: p0, end: p1 },
            compression_level: v as u8,
        },
    )
}

/// Apply the existence check to resolved parameters: the caller probes the
/// resolved path and reports the outcome here. An existing file completes the
/// parameters; a missing one is a terminal failure at the path token's span,
/// carrying the resolved path for the diagnostic.
pub fn confirm_file_exists(pending: PendingParams, file_exists: bool) -> (r: Result<
    CompressParams,
    ResolveError,
>)
    requires
        pending.wf(),
    ensures
        file_exists ==> {
            &&& r matches Ok(p)
            &&& p.file_path@ == pending.resolved_path@
            &&& p.compression_level == pending.compression_level
            &&& p.wf()
        },
        !file_exists ==> {
            &&& r matches Err(e)
            &&& e matches ResolveError::FileNotFound { span, resolved_path }
            &&& span == pending.path_span
            &&& resolved_path@ == pending.resolved_path@
        },
{
    if file_exists {
        Ok(
            CompressParams {
                file_path: pending.resolved_path,
                compression_level: pending.compression_level,
            },
        )
    } else {
        Err(
            ResolveError::FileNotFound {
                span: pending.path_span,
                resolved_path: pending.resolved_path,
            },
        )
    }
}

} // verus!
