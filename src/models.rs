//! Recognising model files on disk: which Whisper files are models and
//! their ids, and which streaming-model families a directory holds,
//! judged by the names of the files in it. Listing directories and
//! measuring sizes is the caller's.
use crate::registry::occurs_in;
use crate::transcript::{chars_of, string_of};
use vstd::prelude::*;

verus! {

/// Whether `p` begins `s`.
pub open spec fn starts(s: Seq<char>, p: Seq<char>) -> bool {
    p.len() <= s.len() && s.take(p.len() as int) == p
}

/// Whether `p` ends `s`.
pub open spec fn ends(s: Seq<char>, p: Seq<char>) -> bool {
    p.len() <= s.len() && s.skip(s.len() - p.len()) == p
}

/// `s` with every leading repetition of `p` removed (`trim_start_matches`).
pub open spec fn strip_leading(s: Seq<char>, p: Seq<char>) -> Seq<char>
    decreases s.len(),
{
    if p.len() > 0 && starts(s, p) {
        strip_leading(s.skip(p.len() as int), p)
    } else {
        s
    }
}

/// `s` with every trailing repetition of `p` removed (`trim_end_matches`).
pub open spec fn strip_trailing(s: Seq<char>, p: Seq<char>) -> Seq<char>
    decreases s.len(),
{
    if p.len() > 0 && ends(s, p) {
        strip_trailing(s.take(s.len() - p.len()), p)
    } else {
        s
    }
}

/// The id of a Whisper model file: names `ggml-*.bin` other than the
/// Silero voice model, without those affixes.
pub open spec fn whisper_id_of(file: Seq<char>) -> Option<Seq<char>> {
    if starts(file, "ggml-"@) && ends(file, ".bin"@) && !occurs_in(file, "silero"@) {
        Some(strip_trailing(strip_leading(file, "ggml-"@), ".bin"@))
    } else {
        None
    }
}

fn begins_with(s: &Vec<char>, p: &Vec<char>) -> (r: bool)
    ensures
        r == starts(s@, p@),
{
    if p.len() > s.len() {
        return false;
    }
    let mut i: usize = 0;
    while i < p.len()
        invariant
            p@.len() <= s@.len(),
            i <= p@.len(),
            forall|j: int| 0 <= j < i ==> s@[j] == p@[j],
        decreases p@.len() - i,
    {
        if s[i] != p[i] {
            assert(s@.take(p@.len() as int)[i as int] != p@[i as int]);
            return false;
        }
        i = i + 1;
    }
    assert(s@.take(p@.len() as int) =~= p@);
    true
}

fn finishes_with(s: &Vec<char>, p: &Vec<char>) -> (r: bool)
    ensures
        r == ends(s@, p@),
{
    if p.len() > s.len() {
        return false;
    }
    let off = s.len() - p.len();
    let mut i: usize = 0;
    while i < p.len()
        invariant
            off == s@.len() - p@.len(),
            s@.len() <= usize::MAX,
            i <= p@.len(),
            forall|j: int| 0 <= j < i ==> s@[off + j] == p@[j],
        decreases p@.len() - i,
    {
        if s[off + i] != p[i] {
            assert(s@.skip(off as int)[i as int] != p@[i as int]);
            return false;
        }
        i = i + 1;
    }
    assert(s@.skip(off as int) =~= p@);
    true
}

/// `s[lo..hi]` as a new vector.
fn slice_chars(s: &Vec<char>, lo: usize, hi: usize) -> (r: Vec<char>)
    requires
        lo <= hi <= s@.len(),
    ensures
        r@ == s@.subrange(lo as int, hi as int),
{
    crate::transcript::copy_range(s, lo, hi)
}

/// Remove every leading repetition of `p`.
fn trim_start_all(s: &Vec<char>, p: &Vec<char>) -> (r: Vec<char>)
    ensures
        r@ == strip_leading(s@, p@),
{
    let mut cur = slice_chars(s, 0, s.len());
    assert(cur@ =~= s@);
    if p.len() == 0 {
        return cur;
    }
    while begins_with(&cur, p)
        invariant
            p@.len() > 0,
            strip_leading(s@, p@) == strip_leading(cur@, p@),
        decreases cur@.len(),
    {
        cur = slice_chars(&cur, p.len(), cur.len());
    }
    cur
}

/// Remove every trailing repetition of `p`.
fn trim_end_all(s: &Vec<char>, p: &Vec<char>) -> (r: Vec<char>)
    ensures
        r@ == strip_trailing(s@, p@),
{
    let mut cur = slice_chars(s, 0, s.len());
    assert(cur@ =~= s@);
    if p.len() == 0 {
        return cur;
    }
    while finishes_with(&cur, p)
        invariant
            p@.len() > 0,
            strip_trailing(s@, p@) == strip_trailing(cur@, p@),
        decreases cur@.len(),
    {
        let n = cur.len() - p.len();
        let next = slice_chars(&cur, 0, n);
        assert(next@ =~= cur@.take(cur@.len() - p@.len()));
        cur = next;
    }
    cur
}

/// The model id of a file in the Whisper models directory, or `None`
/// when the file is not a Whisper model.
pub fn whisper_model_id(file_name: &str) -> (r: Option<String>)
    ensures
        whisper_id_of(file_name@) matches Some(id) ==> (r matches Some(s) && s@ == id),
        whisper_id_of(file_name@) is None ==> r is None,
{
    let f = chars_of(file_name);
    let pre = chars_of("ggml-");
    let suf = chars_of(".bin");
    if begins_with(&f, &pre) && finishes_with(&f, &suf) && !crate::registry::contains_text(file_name, "silero") {
        let a = trim_start_all(&f, &pre);
        let b = trim_end_all(&a, &suf);
        Some(string_of(b.as_slice()))
    } else {
        None
    }
}

/// Families of streaming models.
#[derive(Debug, Clone, Copy, PartialEq, Eq, Structural)]
pub enum ParakeetKind {
    Nemotron,
    Eou,
    Tdt,
    Ctc,
}

impl ParakeetKind {
    pub open spec fn spec_label(self) -> Seq<char> {
        match self {
            ParakeetKind::Nemotron => "Nemotron"@,
            ParakeetKind::Eou => "EOU"@,
            ParakeetKind::Tdt => "TDT"@,
            ParakeetKind::Ctc => "CTC"@,
        }
    }

    /// The family's model type name.
    pub fn label(&self) -> (r: &'static str)
        ensures
            r@ == self.spec_label(),
    {
        match self {
            ParakeetKind::Nemotron => "Nemotron",
            ParakeetKind::Eou => "EOU",
            ParakeetKind::Tdt => "TDT",
            ParakeetKind::Ctc => "CTC",
        }
    }
}

/// Whether a file named `name` is among `files`.
pub open spec fn present(files: Seq<Seq<char>>, name: Seq<char>) -> bool {
    exists|i: int| 0 <= i < files.len() && #[trigger] files[i] == name
}

/// The families a directory holding `files` provides: a cache-aware
/// streaming model (encoder, joint decoder, SentencePiece tokenizer), else
/// an end-of-utterance model (same with a JSON tokenizer); a TDT model
/// (encoder, decoder, joint network); a CTC model (one network, JSON
/// tokenizer). The CTC entry comes first when `ctc_first` is set.
pub open spec fn kinds_of(files: Seq<Seq<char>>, ctc_first: bool) -> Seq<ParakeetKind> {
    let stream = if present(files, "encoder.onnx"@) && present(files, "decoder_joint.onnx"@) {
        if present(files, "tokenizer.model"@) {
            seq![ParakeetKind::Nemotron]
        } else if present(files, "tokenizer.json"@) {
            seq![ParakeetKind::Eou]
        } else {
            Seq::empty()
        }
    } else {
        Seq::empty()
    };
    let tdt = if present(files, "encoder.onnx"@) && present(files, "decoder.onnx"@) && present(
        files,
        "joint.onnx"@,
    ) {
        seq![ParakeetKind::Tdt]
    } else {
        Seq::empty()
    };
    let ctc = if present(files, "model.onnx"@) && present(files, "tokenizer.json"@) {
        seq![ParakeetKind::Ctc]
    } else {
        Seq::empty()
    };
    if ctc_first {
        ctc + stream + tdt
    } else {
        stream + tdt + ctc
    }
}

fn has_file(files: &Vec<String>, name: &str) -> (r: bool)
    ensures
        r == present(files.deep_view(), name@),
{
    let mut i: usize = 0;
    while i < files.len()
        invariant
            i <= files@.len(),
            forall|j: int| 0 <= j < i ==> #[trigger] files.deep_view()[j] != name@,
        decreases files@.len() - i,
    {
        if crate::registry::same_text(files[i].as_str(), name) {
            assert(files.deep_view()[i as int] == name@);
            return true;
        }
        i = i + 1;
    }
    false
}

/// The streaming-model families found in a directory, from the names of
/// its files.
pub fn parakeet_kinds(files: &Vec<String>, ctc_first: bool) -> (r: Vec<ParakeetKind>)
    ensures
        r@ == kinds_of(files.deep_view(), ctc_first),
{
    let enc = has_file(files, "encoder.onnx");
    let dj = has_file(files, "decoder_joint.onnx");
    let tm = has_file(files, "tokenizer.model");
    let tj = has_file(files, "tokenizer.json");
    let dec = has_file(files, "decoder.onnx");
    let joint = has_file(files, "joint.onnx");
    let model = has_file(files, "model.onnx");
    let mut stream: Vec<ParakeetKind> = Vec::new();
    if enc && dj {
        if tm {
            stream.push(ParakeetKind::Nemotron);
        } else if tj {
            stream.push(ParakeetKind::Eou);
        }
    }
    let ctc = model && tj;
    let tdt = enc && dec && joint;
    let mut r: Vec<ParakeetKind> = Vec::new();
    if ctc_first {
        if ctc {
            r.push(ParakeetKind::Ctc);
        }
        r.append(&mut stream);
        if tdt {
            r.push(ParakeetKind::Tdt);
        }
    } else {
        r.append(&mut stream);
        if tdt {
            r.push(ParakeetKind::Tdt);
        }
        if ctc {
            r.push(ParakeetKind::Ctc);
        }
    }
    assert(r@ =~= kinds_of(files.deep_view(), ctc_first));
    r
}

/// Id prefix of a family.
pub open spec fn id_prefix(k: ParakeetKind) -> Seq<char> {
    match k {
        ParakeetKind::Nemotron => "nemotron:"@,
        ParakeetKind::Eou => "eou:"@,
        ParakeetKind::Tdt => "tdt:"@,
        ParakeetKind::Ctc => "ctc:"@,
    }
}

/// Display prefix of a family; the cache-aware model found at the top
/// level is marked as streaming.
pub open spec fn name_prefix(k: ParakeetKind, nested: bool) -> Seq<char> {
    match k {
        ParakeetKind::Nemotron => if nested {
            "Nemotron - "@
        } else {
            "Nemotron (Streaming) - "@
        },
        ParakeetKind::Eou => "Parakeet EOU - "@,
        ParakeetKind::Tdt => "Parakeet TDT - "@,
        ParakeetKind::Ctc => "Parakeet CTC - "@,
    }
}

/// Id and display name of the model of family `kind` in directory `dir`,
/// found at the top level or, when `nested`, under `parakeet/`.
pub fn parakeet_entry(kind: ParakeetKind, dir: &str, nested: bool) -> (r: (String, String))
    ensures
        r.0@ == id_prefix(kind) + (if nested {
            "parakeet/"@
        } else {
            Seq::<char>::empty()
        }) + dir@,
        r.1@ == name_prefix(kind, nested) + dir@,
{
    let idp: &str = match kind {
        ParakeetKind::Nemotron => "nemotron:",
        ParakeetKind::Eou => "eou:",
        ParakeetKind::Tdt => "tdt:",
        ParakeetKind::Ctc => "ctc:",
    };
    let namep: &str = match kind {
        ParakeetKind::Nemotron => if nested {
            "Nemotron - "
        } else {
            "Nemotron (Streaming) - "
        },
        ParakeetKind::Eou => "Parakeet EOU - ",
        ParakeetKind::Tdt => "Parakeet TDT - ",
        ParakeetKind::Ctc => "Parakeet CTC - ",
    };
    let mut id = chars_of(idp);
    if nested {
        let sub = chars_of("parakeet/");
        id.extend_from_slice(sub.as_slice());
    } else {
        proof {
            assert(id@ + Seq::<char>::empty() =~= id@);
        }
    }
    let d = chars_of(dir);
    id.extend_from_slice(d.as_slice());
    let mut name = chars_of(namep);
    name.extend_from_slice(d.as_slice());
    (string_of(id.as_slice()), string_of(name.as_slice()))
}

} // verus!
