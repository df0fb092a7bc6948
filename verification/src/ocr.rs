//! Turning what the system text recognizer reports into the text to copy.

use vstd::prelude::*;

use crate::text::{push_separator, push_str, starts_with, string_of};

verus! {

/// Why a recognition gave no text.
#[derive(Debug)]
pub enum OcrError {
    /// The recognizer found no text in the image.
    NoTextRecognized,
    /// The recognizer failed, with its message.
    Error(String),
}

impl OcrError {
    /// The message shown for this error.
    pub fn message(&self) -> (r: String)
        ensures
            r@ == match self {
                OcrError::NoTextRecognized => "No text recognized"@,
                OcrError::Error(e) => e@,
            },
    {
        match self {
            OcrError::NoTextRecognized => string_of("No text recognized"),
            OcrError::Error(e) => string_of(e.as_str()),
        }
    }
}

/// Recognition where the platform offers no text recognizer: it always
/// fails, saying so.
pub fn recognize_file(_path: &str) -> (r: Result<String, OcrError>)
    ensures
        r matches Err(OcrError::Error(m)) && m@ == "System OCR is not implemented for this platform"@,
{
    Err(OcrError::Error(string_of("System OCR is not implemented for this platform")))
}

/// One text region that the recognizer reports.
#[derive(Debug)]
pub struct TextObservation {
    /// The best candidate string whose confidence is not negative, if any.
    pub text: Option<String>,
    /// Whether the region's bounding box starts in the lowest tenth of the
    /// image; such a region is put on a new line, any other after a space.
    pub line_break_before: bool,
}

/// The text that a region adds: its candidate string, or nothing.
pub open spec fn piece(o: TextObservation) -> Seq<char> {
    match o.text {
        Some(t) => t@,
        None => Seq::empty(),
    }
}

/// The text assembled from the regions in order: the non-empty pieces, each
/// but the first preceded by a line break or a space as its region says.
pub open spec fn assembled(obs: Seq<TextObservation>) -> Seq<char>
    decreases obs.len(),
{
    if obs.len() == 0 {
        Seq::empty()
    } else {
        let prev = assembled(obs.drop_last());
        let o = obs.last();
        if piece(o).len() == 0 {
            prev
        } else if prev.len() == 0 {
            piece(o)
        } else {
            prev.push(if o.line_break_before { '\n' } else { ' ' }) + piece(o)
        }
    }
}

/// The outcome of a recognition, from the regions reported (`None` where the
/// recognizer reported no result list).
pub open spec fn recognized(results: Option<Seq<TextObservation>>) -> Option<Seq<char>> {
    match results {
        Some(obs) => if obs.len() > 0 && assembled(obs).len() > 0 {
            Some(assembled(obs))
        } else {
            None
        },
        None => None,
    }
}

/// Assembles the recognized text from the regions the recognizer reported;
/// fails with `NoTextRecognized` where they hold no text.
pub fn collect_recognized_text(results: Option<Vec<TextObservation>>) -> (r: Result<
    String,
    OcrError,
>)
    ensures
        match r {
            Ok(t) => match results {
                Some(obs) => recognized(Some(obs@)) == Some(t@),
                None => false,
            },
            Err(e) => e is NoTextRecognized && match results {
                Some(obs) => recognized(Some(obs@)) is None,
                None => true,
            },
        },
{
    let obs = match results {
        Some(obs) => obs,
        None => return Err(OcrError::NoTextRecognized),
    };
    if obs.len() == 0 {
        return Err(OcrError::NoTextRecognized);
    }
    let mut collected = String::new();
    let mut empty = true;
    let n = obs.len();
    let mut i: usize = 0;
    while i < n
        invariant
            n == obs@.len(),
            i <= n,
            collected@ == assembled(obs@.take(i as int)),
            empty == (collected@.len() == 0),
        decreases n - i,
    {
        assert(obs@.take(i + 1).drop_last() =~= obs@.take(i as int));
        assert(obs@.take(i + 1).last() == obs@[i as int]);
        match &obs[i].text {
            Some(t) => {
                if !t.as_str().is_empty() {
                    if !empty {
                        if obs[i].line_break_before {
                            push_separator(&mut collected, '\n');
                        } else {
                            push_separator(&mut collected, ' ');
                        }
                    }
                    push_str(&mut collected, t.as_str());
                    empty = false;
                }
            },
            None => {},
        }
        i = i + 1;
    }
    assert(obs@.take(n as int) =~= obs@);
    if empty {
        Err(OcrError::NoTextRecognized)
    } else {
        Ok(collected)
    }
}

/// The language to fall back on when no recognizer can be made for the
/// user's profile languages: the first of the `language_count` installed
/// recognizer languages, or an error where none is installed.
pub fn fallback_language(language_count: u32) -> (r: Result<u32, OcrError>)
    ensures
        language_count == 0 ==> (r matches Err(OcrError::Error(m)) && m@
            == "No Windows OCR languages are installed. Install an OCR-capable Windows language pack."@),
        language_count > 0 ==> r matches Ok(0u32),
{
    if language_count == 0 {
        Err(
            OcrError::Error(
                string_of(
                    "No Windows OCR languages are installed. Install an OCR-capable Windows language pack.",
                ),
            ),
        )
    } else {
        Ok(0)
    }
}

/// The path form that the Windows file API takes: the verbatim prefix
/// `\\?\` is dropped, and `\\?\UNC\` becomes `\\`.
pub open spec fn normalized_windows_path(path: Seq<char>) -> Seq<char> {
    let unc = "\\\\?\\UNC\\"@;
    let verbatim = "\\\\?\\"@;
    if unc.len() <= path.len() && path.take(unc.len() as int) == unc {
        "\\\\"@ + path.skip(unc.len() as int)
    } else if verbatim.len() <= path.len() && path.take(verbatim.len() as int) == verbatim {
        path.skip(verbatim.len() as int)
    } else {
        path
    }
}

/// Rewrites a canonical Windows path into the form the file API takes.
pub fn normalize_windows_path(path: &str) -> (r: String)
    ensures
        r@ == normalized_windows_path(path@),
{
    let unc = "\\\\?\\UNC\\";
    let verbatim = "\\\\?\\";
    let len = path.unicode_len();
    if starts_with(path, unc) {
        let rest = path.substring_char(unc.unicode_len(), len);
        let mut r = string_of("\\\\");
        push_str(&mut r, rest);
        r
    } else if starts_with(path, verbatim) {
        string_of(path.substring_char(verbatim.unicode_len(), len))
    } else {
        string_of(path)
    }
}

/// The character that a region asks to be put before its own text: a line
/// break where its box starts in the lowest tenth of the image, else a
/// space.
pub open spec fn separator_of(o: TextObservation) -> char {
    if o.line_break_before { '\n' } else { ' ' }
}

/// How the assembled text grows by one more region: a region without text
/// adds nothing; the first text stands alone; every later text is preceded
/// by the separator that its own region asks for.
pub proof fn lemma_assembled_grows(obs: Seq<TextObservation>, o: TextObservation)
    ensures
        piece(o).len() == 0 ==> assembled(obs.push(o)) == assembled(obs),
        piece(o).len() > 0 && assembled(obs).len() == 0 ==> assembled(obs.push(o)) == piece(o),
        piece(o).len() > 0 && assembled(obs).len() > 0 ==> assembled(obs.push(o)) == assembled(obs)
            + seq![separator_of(o)] + piece(o),
{
    assert(obs.push(o).drop_last() =~= obs);
    assert(obs.push(o).last() == o);
    assert(assembled(obs).push(separator_of(o)) =~= assembled(obs) + seq![separator_of(o)]);
}

/// Two regions with text give the first text, the separator that the second
/// region asks for, then the second text.
pub proof fn lemma_assembled_two(a: TextObservation, b: TextObservation)
    requires
        piece(a).len() > 0,
        piece(b).len() > 0,
    ensures
        assembled(seq![a, b]) == piece(a) + seq![separator_of(b)] + piece(b),
{
    assert(seq![a, b].drop_last() =~= seq![a]);
    assert(seq![a].drop_last() =~= Seq::<TextObservation>::empty());
    assert(seq![a].last() == a);
    assert(assembled(Seq::<TextObservation>::empty()).len() == 0);
    assert(assembled(seq![a]) == piece(a));
    assert(piece(a).push(separator_of(b)) + piece(b) =~= piece(a) + seq![separator_of(b)] + piece(b));
}

/// Text is reported exactly when some region has text.
pub proof fn lemma_recognized_when_some_text(obs: Seq<TextObservation>)
    ensures
        assembled(obs).len() > 0 <==> exists|i: int| 0 <= i < obs.len() && #[trigger] piece(obs[i]).len() > 0,
    decreases obs.len(),
{
    if obs.len() > 0 {
        let init = obs.drop_last();
        lemma_recognized_when_some_text(init);
        assert(obs =~= init.push(obs.last()));
        lemma_assembled_grows(init, obs.last());
        if exists|i: int| 0 <= i < obs.len() && #[trigger] piece(obs[i]).len() > 0 {
            let i = choose|i: int| 0 <= i < obs.len() && #[trigger] piece(obs[i]).len() > 0;
            if i < obs.len() - 1 {
                assert(init[i] == obs[i]);
            }
        }
        if exists|i: int| 0 <= i < init.len() && #[trigger] piece(init[i]).len() > 0 {
            let i = choose|i: int| 0 <= i < init.len() && #[trigger] piece(init[i]).len() > 0;
            assert(init[i] == obs[i]);
        }
    }
}

/// A canonical Windows path loses its verbatim prefix `\\?\`; a verbatim
/// network path `\\?\UNC\server\...` becomes `\\server\...`; any other path
/// is kept as it is.
pub proof fn lemma_windows_path_prefixes(path: Seq<char>)
    ensures
        path.len() >= 8 && path.take(8) == seq!['\\', '\\', '?', '\\', 'U', 'N', 'C', '\\']
            ==> normalized_windows_path(path) == seq!['\\', '\\'] + path.skip(8),
        path.len() >= 4 && path.take(4) == seq!['\\', '\\', '?', '\\'] && !(path.len() >= 8
            && path.take(8) == seq!['\\', '\\', '?', '\\', 'U', 'N', 'C', '\\'])
            ==> normalized_windows_path(path) == path.skip(4),
        !(path.len() >= 4 && path.take(4) == seq!['\\', '\\', '?', '\\'])
            ==> normalized_windows_path(path) == path,
{
    reveal_strlit("\\\\?\\UNC\\");
    reveal_strlit("\\\\?\\");
    reveal_strlit("\\\\");
    assert("\\\\?\\UNC\\"@ =~= seq!['\\', '\\', '?', '\\', 'U', 'N', 'C', '\\']);
    assert("\\\\?\\"@ =~= seq!['\\', '\\', '?', '\\']);
    assert("\\\\"@ =~= seq!['\\', '\\']);
    if path.len() >= 8 && path.take(8) == seq!['\\', '\\', '?', '\\', 'U', 'N', 'C', '\\'] {
        assert(path.take(8)[0] == '\\' && path.take(8)[1] == '\\');
        assert(path.take(8)[2] == '?' && path.take(8)[3] == '\\');
        assert(path.take(4) =~= seq!['\\', '\\', '?', '\\']);
    }
}

} // verus!
