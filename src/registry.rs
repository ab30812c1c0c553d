//! Where each downloadable model comes from: repository, branch, files
//! and local subdirectory, by model id.
use crate::transcript::{chars_of, string_of};
use vstd::prelude::*;

verus! {

/// One file of a model.
pub struct ModelFile {
    /// Local file name.
    pub filename: &'static str,
    /// Path in the repository.
    pub remote_path: &'static str,
    /// SHA-1 of the file, or empty when not pinned.
    pub sha1: &'static str,
}

/// Files of a model and where they are downloaded from.
pub struct ModelConfig {
    pub repo: &'static str,
    pub branch: &'static str,
    pub files: Vec<ModelFile>,
    /// Local subdirectory the files go to, if any.
    pub subdirectory: Option<&'static str>,
}

/// A file as (local name, repository path, SHA-1).
pub type FileView = (Seq<char>, Seq<char>, Seq<char>);

/// A configuration as (repository, branch, files, subdirectory).
pub type ConfigView = (Seq<char>, Seq<char>, Seq<FileView>, Option<Seq<char>>);

impl ModelFile {
    pub open spec fn file_view(self) -> FileView {
        (self.filename@, self.remote_path@, self.sha1@)
    }
}

impl ModelConfig {
    pub open spec fn config_view(self) -> ConfigView {
        (
            self.repo@,
            self.branch@,
            self.files@.map_values(|f: ModelFile| f.file_view()),
            match self.subdirectory {
                Some(s) => Some(s@),
                None => None,
            },
        )
    }
}

/// Default repository of the single-file Whisper models.
pub const DEFAULT_HF_REPO: &'static str = "ggerganov/whisper.cpp";

/// Default branch.
pub const DEFAULT_HF_BRANCH: &'static str = "main";

/// A single-file Whisper model in the default repository.
pub open spec fn single_whisper_view(filename: Seq<char>, sha1: Seq<char>) -> ConfigView {
    ("ggerganov/whisper.cpp"@, "main"@, seq![(filename, filename, sha1)], None)
}

/// The configuration of each known model id.
pub open spec fn registry_entry(id: Seq<char>) -> Option<ConfigView> {
    if id == "whisper-tiny"@ {
        Some(single_whisper_view("ggml-tiny.bin"@, "bd577a113a864445d4c299885e0cb97d4ba92b5f"@))
    } else if id == "whisper-tiny-q5_1"@ {
        Some(single_whisper_view("ggml-tiny-q5_1.bin"@, "2827a03e495b1ed3048ef28a6a4620537db4ee51"@))
    } else if id == "whisper-tiny-q8_0"@ {
        Some(single_whisper_view("ggml-tiny-q8_0.bin"@, "19e8118f6652a650569f5a949d962154e01571d9"@))
    } else if id == "whisper-tiny-en"@ {
        Some(single_whisper_view("ggml-tiny.en.bin"@, "c78c86eb1a8faa21b369bcd33207cc90d64ae9df"@))
    } else if id == "whisper-tiny-en-q5_1"@ {
        Some(single_whisper_view("ggml-tiny.en-q5_1.bin"@, "3fb92ec865cbbc769f08137f22470d6b66e071b6"@))
    } else if id == "whisper-tiny-en-q8_0"@ {
        Some(single_whisper_view("ggml-tiny.en-q8_0.bin"@, "802d6668e7d411123e672abe4cb6c18f12306abb"@))
    } else if id == "whisper-base"@ {
        Some(single_whisper_view("ggml-base.bin"@, "465707469ff3a37a2b9b8d8f89f2f99de7299dac"@))
    } else if id == "whisper-base-q5_1"@ {
        Some(single_whisper_view("ggml-base-q5_1.bin"@, "a3733eda680ef76256db5fc5dd9de8629e62c5e7"@))
    } else if id == "whisper-base-q8_0"@ {
        Some(single_whisper_view("ggml-base-q8_0.bin"@, "7bb89bb49ed6955013b166f1b6a6c04584a20fbe"@))
    } else if id == "whisper-base-en"@ {
        Some(single_whisper_view("ggml-base.en.bin"@, "137c40403d78fd54d454da0f9bd998f78703390c"@))
    } else if id == "whisper-base-en-q5_1"@ {
        Some(single_whisper_view("ggml-base.en-q5_1.bin"@, "d26d7ce5a1b6e57bea5d0431b9c20ae49423c94a"@))
    } else if id == "whisper-base-en-q8_0"@ {
        Some(single_whisper_view("ggml-base.en-q8_0.bin"@, "bb1574182e9b924452bf0cd1510ac034d323e948"@))
    } else if id == "whisper-small"@ {
        Some(single_whisper_view("ggml-small.bin"@, "55356645c2b361a969dfd0ef2c5a50d530afd8d5"@))
    } else if id == "whisper-small-q5_1"@ {
        Some(single_whisper_view("ggml-small-q5_1.bin"@, "6fe57ddcfdd1c6b07cdcc73aaf620810ce5fc771"@))
    } else if id == "whisper-small-q8_0"@ {
        Some(single_whisper_view("ggml-small-q8_0.bin"@, "bcad8a2083f4e53d648d586b7dbc0cd673d8afad"@))
    } else if id == "whisper-small-en"@ {
        Some(single_whisper_view("ggml-small.en.bin"@, "db8a495a91d927739e50b3fc1cc4c6b8f6c2d022"@))
    } else if id == "whisper-small-en-q5_1"@ {
        Some(single_whisper_view("ggml-small.en-q5_1.bin"@, "20f54878d608f94e4a8ee3ae56016571d47cba34"@))
    } else if id == "whisper-small-en-q8_0"@ {
        Some(single_whisper_view("ggml-small.en-q8_0.bin"@, "9d75ff4ccfa0a8217870d7405cf8cef0a5579852"@))
    } else if id == "whisper-small-en-tdrz"@ {
        Some(single_whisper_view("ggml-small.en-tdrz.bin"@, "b6c6e7e89af1a35c08e6de56b66ca6a02a2fdfa1"@))
    } else if id == "whisper-medium"@ {
        Some(single_whisper_view("ggml-medium.bin"@, "fd9727b6e1217c2f614f9b698455c4ffd82463b4"@))
    } else if id == "whisper-medium-q5_0"@ {
        Some(single_whisper_view("ggml-medium-q5_0.bin"@, "7718d4c1ec62ca96998f058114db98236937490e"@))
    } else if id == "whisper-medium-q8_0"@ {
        Some(single_whisper_view("ggml-medium-q8_0.bin"@, "e66645948aff4bebbec71b3485c576f3d63af5d6"@))
    } else if id == "whisper-medium-en"@ {
        Some(single_whisper_view("ggml-medium.en.bin"@, "8c30f0e44ce9560643ebd10bbe50cd20eafd3723"@))
    } else if id == "whisper-medium-en-q5_0"@ {
        Some(single_whisper_view("ggml-medium.en-q5_0.bin"@, "bb3b5281bddd61605d6fc76bc5b92d8f20284c3b"@))
    } else if id == "whisper-medium-en-q8_0"@ {
        Some(single_whisper_view("ggml-medium.en-q8_0.bin"@, "b1cf48c12c807e14881f634fb7b6c6ca867f6b38"@))
    } else if id == "whisper-large-v1"@ {
        Some(single_whisper_view("ggml-large-v1.bin"@, "b1caaf735c4cc1429223d5a74f0f4d0b9b59a299"@))
    } else if id == "whisper-large-v2"@ {
        Some(single_whisper_view("ggml-large-v2.bin"@, "0f4c8e34f21cf1a914c59d8b3ce882345ad349d6"@))
    } else if id == "whisper-large-v2-q5_0"@ {
        Some(single_whisper_view("ggml-large-v2-q5_0.bin"@, "00e39f2196344e901b3a2bd5814807a769bd1630"@))
    } else if id == "whisper-large-v2-q8_0"@ {
        Some(single_whisper_view("ggml-large-v2-q8_0.bin"@, "da97d6ca8f8ffbeeb5fd147f79010eeea194ba38"@))
    } else if id == "whisper-large-v3"@ {
        Some(single_whisper_view("ggml-large-v3.bin"@, "ad82bf6a9043ceed055076d0fd39f5f186ff8062"@))
    } else if id == "whisper-large-v3-q5_0"@ {
        Some(single_whisper_view("ggml-large-v3-q5_0.bin"@, "e6e2ed78495d403bef4b7cff42ef4aaadcfea8de"@))
    } else if id == "whisper-large-v3-turbo"@ {
        Some(single_whisper_view("ggml-large-v3-turbo.bin"@, "4af2b29d7ec73d781377bfd1758ca957a807e941"@))
    } else if id == "whisper-large-v3-turbo-q5_0"@ {
        Some(single_whisper_view("ggml-large-v3-turbo-q5_0.bin"@, "e050f7970618a659205450ad97eb95a18d69c9ee"@))
    } else if id == "whisper-large-v3-turbo-q8_0"@ {
        Some(single_whisper_view("ggml-large-v3-turbo-q8_0.bin"@, "01bf15bedffe9f39d65c1b6ff9b687ea91f59e0e"@))
    } else if id == "whisper-tiny-coreml"@ {
        Some(("ggerganov/whisper.cpp"@, "main"@, seq![("ggml-tiny-encoder.mlmodelc"@, "ggml-tiny-encoder.mlmodelc.zip"@, ""@)], None))
    } else if id == "whisper-tiny-en-coreml"@ {
        Some(("ggerganov/whisper.cpp"@, "main"@, seq![("ggml-tiny.en-encoder.mlmodelc"@, "ggml-tiny.en-encoder.mlmodelc.zip"@, ""@)], None))
    } else if id == "whisper-base-coreml"@ {
        Some(("ggerganov/whisper.cpp"@, "main"@, seq![("ggml-base-encoder.mlmodelc"@, "ggml-base-encoder.mlmodelc.zip"@, ""@)], None))
    } else if id == "whisper-base-en-coreml"@ {
        Some(("ggerganov/whisper.cpp"@, "main"@, seq![("ggml-base.en-encoder.mlmodelc"@, "ggml-base.en-encoder.mlmodelc.zip"@, ""@)], None))
    } else if id == "whisper-small-coreml"@ {
        Some(("ggerganov/whisper.cpp"@, "main"@, seq![("ggml-small-encoder.mlmodelc"@, "ggml-small-encoder.mlmodelc.zip"@, ""@)], None))
    } else if id == "whisper-small-en-coreml"@ {
        Some(("ggerganov/whisper.cpp"@, "main"@, seq![("ggml-small.en-encoder.mlmodelc"@, "ggml-small.en-encoder.mlmodelc.zip"@, ""@)], None))
    } else if id == "whisper-medium-coreml"@ {
        Some(("ggerganov/whisper.cpp"@, "main"@, seq![("ggml-medium-encoder.mlmodelc"@, "ggml-medium-encoder.mlmodelc.zip"@, ""@)], None))
    } else if id == "whisper-medium-en-coreml"@ {
        Some(("ggerganov/whisper.cpp"@, "main"@, seq![("ggml-medium.en-encoder.mlmodelc"@, "ggml-medium.en-encoder.mlmodelc.zip"@, ""@)], None))
    } else if id == "whisper-large-v3-coreml"@ {
        Some(("ggerganov/whisper.cpp"@, "main"@, seq![("ggml-large-v3-encoder.mlmodelc"@, "ggml-large-v3-encoder.mlmodelc.zip"@, ""@)], None))
    } else if id == "whisper-large-v3-turbo-coreml"@ {
        Some(("ggerganov/whisper.cpp"@, "main"@, seq![("ggml-large-v3-turbo-encoder.mlmodelc"@, "ggml-large-v3-turbo-encoder.mlmodelc.zip"@, ""@)], None))
    } else if id == "parakeet-nemotron"@ {
        Some(("altunenes/parakeet-rs"@, "main"@, seq![("decoder_joint.onnx"@, "nemotron-speech-streaming-en-0.6b/decoder_joint.onnx"@, ""@), ("encoder.onnx"@, "nemotron-speech-streaming-en-0.6b/encoder.onnx"@, ""@), ("encoder.onnx.data"@, "nemotron-speech-streaming-en-0.6b/encoder.onnx.data"@, ""@), ("tokenizer.model"@, "nemotron-speech-streaming-en-0.6b/tokenizer.model"@, ""@)], Some("parakeet-nemotron"@)))
    } else if id == "symspell-en-82k"@ {
        Some(("github:wolfgarbe/SymSpell"@, "master"@, seq![("frequency_dictionary_en_82_765.txt"@, "frequency_dictionary_en_82_765.txt"@, ""@)], None))
    } else if id == "qwen2.5-0.5b-instruct"@ {
        Some(("Qwen/Qwen2.5-0.5B-Instruct-GGUF"@, "main"@, seq![("qwen2.5-0.5b-instruct-q4_k_m.gguf"@, "qwen2.5-0.5b-instruct-q4_k_m.gguf"@, ""@)], Some("Qwen2.5-0.5B-Instruct"@)))
    } else if id == "qwen2.5-0.5b-instruct-tokenizer"@ {
        Some(("Qwen/Qwen2.5-0.5B-Instruct"@, "main"@, seq![("tokenizer.json"@, "tokenizer.json"@, ""@), ("tokenizer_config.json"@, "tokenizer_config.json"@, ""@), ("vocab.json"@, "vocab.json"@, ""@), ("merges.txt"@, "merges.txt"@, ""@)], Some("Qwen2.5-0.5B-Instruct"@)))
    } else if id == "qwen2.5-0.5b-safetensors"@ {
        Some(("Qwen/Qwen2.5-0.5B"@, "main"@, seq![("model.safetensors"@, "model.safetensors"@, ""@), ("config.json"@, "config.json"@, ""@), ("generation_config.json"@, "generation_config.json"@, ""@), ("tokenizer.json"@, "tokenizer.json"@, ""@), ("tokenizer_config.json"@, "tokenizer_config.json"@, ""@), ("vocab.json"@, "vocab.json"@, ""@), ("merges.txt"@, "merges.txt"@, ""@)], Some("Qwen2.5-0.5B-GPU"@)))
    } else {
        None
    }
}

/// Whether two strings hold the same characters.
pub fn same_text(a: &str, b: &str) -> (r: bool)
    ensures
        r == (a@ == b@),
{
    let x = chars_of(a);
    let y = chars_of(b);
    if x.len() != y.len() {
        return false;
    }
    let mut i: usize = 0;
    while i < x.len()
        invariant
            x@ == a@,
            y@ == b@,
            x@.len() == y@.len(),
            i <= x@.len(),
            forall|j: int| 0 <= j < i ==> x@[j] == y@[j],
        decreases x@.len() - i,
    {
        if x[i] != y[i] {
            return false;
        }
        i = i + 1;
    }
    assert(x@ =~= y@);
    true
}

/// Whether `p` occurs in `s`.
pub open spec fn occurs_in(s: Seq<char>, p: Seq<char>) -> bool {
    exists|i: int| 0 <= i && i + p.len() <= s.len() && #[trigger] s.subrange(i, i + p.len()) == p
}

/// Whether `needle` occurs in `hay`.
pub fn contains_text(hay: &str, needle: &str) -> (r: bool)
    ensures
        r == occurs_in(hay@, needle@),
{
    let h = chars_of(hay);
    let n = chars_of(needle);
    if n.len() > h.len() {
        return false;
    }
    if n.len() == 0 {
        assert(h@.subrange(0int, 0int + n@.len()) =~= n@);
        assert(occurs_in(hay@, needle@));
        return true;
    }
    let last = h.len() - n.len();
    let mut i: usize = 0;
    while i <= last
        invariant
            h@ == hay@,
            n@ == needle@,
            last == h@.len() - n@.len(),
            n@.len() >= 1,
            h@.len() <= usize::MAX,
            forall|j: int| 0 <= j < i ==> #[trigger] h@.subrange(j, j + n@.len()) != n@,
        decreases last + 1 - i,
    {
        let mut k: usize = 0;
        while k < n.len() && h[i + k] == n[k]
            invariant
                h@ == hay@,
                n@ == needle@,
                i <= last,
                last == h@.len() - n@.len(),
                h@.len() <= usize::MAX,
                k <= n@.len(),
                forall|m: int| 0 <= m < k ==> h@[i + m] == n@[m],
            decreases n@.len() - k,
        {
            k = k + 1;
        }
        if k == n.len() {
            assert(h@.subrange(i as int, i + n@.len()) =~= n@);
            return true;
        }
        assert(h@.subrange(i as int, i + n@.len())[k as int] != n@[k as int]);
        i = i + 1;
    }
    proof {
        assert forall|j: int| 0 <= j && j + n@.len() <= h@.len() implies #[trigger] h@.subrange(j, j + n@.len()) != n@ by {
            assert(j < i);
        }
    }
    false
}

/// Display name of a Whisper model id: size, language, quantisation.
pub open spec fn model_display_name(id: Seq<char>) -> Seq<char> {
    let size = if occurs_in(id, "tiny"@) {
        "Tiny"@
    } else if occurs_in(id, "base"@) {
        "Base"@
    } else if occurs_in(id, "small"@) {
        "Small"@
    } else if occurs_in(id, "medium"@) {
        "Medium"@
    } else if occurs_in(id, "large-v3-turbo"@) {
        "Large V3 Turbo"@
    } else if occurs_in(id, "large-v3"@) {
        "Large V3"@
    } else if occurs_in(id, "large"@) {
        "Large"@
    } else {
        Seq::empty()
    };
    let lang = if occurs_in(id, ".en"@) {
        " English"@
    } else {
        " Multilingual"@
    };
    let quant = if occurs_in(id, "q5_0"@) {
        " (Q5_0)"@
    } else if occurs_in(id, "q5_1"@) {
        " (Q5_1)"@
    } else if occurs_in(id, "q8_0"@) {
        " (Q8_0)"@
    } else {
        Seq::empty()
    };
    size + lang + quant
}

/// A readable name for a Whisper model id, e.g. "Tiny English (Q5_1)"
/// for "tiny.en-q5_1".
pub fn format_model_name(id: &str) -> (r: String)
    ensures
        r@ == model_display_name(id@),
{
    let mut name: Vec<char> = Vec::new();
    let size: &str = if contains_text(id, "tiny") {
        "Tiny"
    } else if contains_text(id, "base") {
        "Base"
    } else if contains_text(id, "small") {
        "Small"
    } else if contains_text(id, "medium") {
        "Medium"
    } else if contains_text(id, "large-v3-turbo") {
        "Large V3 Turbo"
    } else if contains_text(id, "large-v3") {
        "Large V3"
    } else if contains_text(id, "large") {
        "Large"
    } else {
        ""
    };
    let lang: &str = if contains_text(id, ".en") {
        " English"
    } else {
        " Multilingual"
    };
    let quant: &str = if contains_text(id, "q5_0") {
        " (Q5_0)"
    } else if contains_text(id, "q5_1") {
        " (Q5_1)"
    } else if contains_text(id, "q8_0") {
        " (Q8_0)"
    } else {
        ""
    };
    proof {
        reveal_strlit("");
    }
    let a = chars_of(size);
    let b = chars_of(lang);
    let c = chars_of(quant);
    name.extend_from_slice(a.as_slice());
    name.extend_from_slice(b.as_slice());
    name.extend_from_slice(c.as_slice());
    string_of(name.as_slice())
}

/// A single-file Whisper model from the default repository and branch.
fn single_file_whisper(filename: &'static str, sha1: &'static str) -> (r: ModelConfig)
    ensures
        r.config_view() == single_whisper_view(filename@, sha1@),
{
    let mut files: Vec<ModelFile> = Vec::new();
    files.push(ModelFile { filename, remote_path: filename, sha1 });
    let r = ModelConfig { repo: DEFAULT_HF_REPO, branch: DEFAULT_HF_BRANCH, files, subdirectory: None };
    assert(r.files@.map_values(|f: ModelFile| f.file_view()) =~= seq![(filename@, filename@, sha1@)]);
    r
}

/// The download configuration of a model by id; `None` for an unknown id.
#[verifier::rlimit(50)]
pub fn get_model_config(model_id: &str) -> (r: Option<ModelConfig>)
    ensures
        r is None <==> registry_entry(model_id@) is None,
        r matches Some(c) ==> registry_entry(model_id@) == Some(c.config_view()),
{
    if same_text(model_id, "whisper-tiny") {
        return Some(single_file_whisper("ggml-tiny.bin", "bd577a113a864445d4c299885e0cb97d4ba92b5f"));
    }
    if same_text(model_id, "whisper-tiny-q5_1") {
        return Some(single_file_whisper("ggml-tiny-q5_1.bin", "2827a03e495b1ed3048ef28a6a4620537db4ee51"));
    }
    if same_text(model_id, "whisper-tiny-q8_0") {
        return Some(single_file_whisper("ggml-tiny-q8_0.bin", "19e8118f6652a650569f5a949d962154e01571d9"));
    }
    if same_text(model_id, "whisper-tiny-en") {
        return Some(single_file_whisper("ggml-tiny.en.bin", "c78c86eb1a8faa21b369bcd33207cc90d64ae9df"));
    }
    if same_text(model_id, "whisper-tiny-en-q5_1") {
        return Some(single_file_whisper("ggml-tiny.en-q5_1.bin", "3fb92ec865cbbc769f08137f22470d6b66e071b6"));
    }
    if same_text(model_id, "whisper-tiny-en-q8_0") {
        return Some(single_file_whisper("ggml-tiny.en-q8_0.bin", "802d6668e7d411123e672abe4cb6c18f12306abb"));
    }
    if same_text(model_id, "whisper-base") {
        return Some(single_file_whisper("ggml-base.bin", "465707469ff3a37a2b9b8d8f89f2f99de7299dac"));
    }
    if same_text(model_id, "whisper-base-q5_1") {
        return Some(single_file_whisper("ggml-base-q5_1.bin", "a3733eda680ef76256db5fc5dd9de8629e62c5e7"));
    }
    if same_text(model_id, "whisper-base-q8_0") {
        return Some(single_file_whisper("ggml-base-q8_0.bin", "7bb89bb49ed6955013b166f1b6a6c04584a20fbe"));
    }
    if same_text(model_id, "whisper-base-en") {
        return Some(single_file_whisper("ggml-base.en.bin", "137c40403d78fd54d454da0f9bd998f78703390c"));
    }
    if same_text(model_id, "whisper-base-en-q5_1") {
        return Some(single_file_whisper("ggml-base.en-q5_1.bin", "d26d7ce5a1b6e57bea5d0431b9c20ae49423c94a"));
    }
    if same_text(model_id, "whisper-base-en-q8_0") {
        return Some(single_file_whisper("ggml-base.en-q8_0.bin", "bb1574182e9b924452bf0cd1510ac034d323e948"));
    }
    if same_text(model_id, "whisper-small") {
        return Some(single_file_whisper("ggml-small.bin", "55356645c2b361a969dfd0ef2c5a50d530afd8d5"));
    }
    if same_text(model_id, "whisper-small-q5_1") {
        return Some(single_file_whisper("ggml-small-q5_1.bin", "6fe57ddcfdd1c6b07cdcc73aaf620810ce5fc771"));
    }
    if same_text(model_id, "whisper-small-q8_0") {
        return Some(single_file_whisper("ggml-small-q8_0.bin", "bcad8a2083f4e53d648d586b7dbc0cd673d8afad"));
    }
    if same_text(model_id, "whisper-small-en") {
        return Some(single_file_whisper("ggml-small.en.bin", "db8a495a91d927739e50b3fc1cc4c6b8f6c2d022"));
    }
    if same_text(model_id, "whisper-small-en-q5_1") {
        return Some(single_file_whisper("ggml-small.en-q5_1.bin", "20f54878d608f94e4a8ee3ae56016571d47cba34"));
    }
    if same_text(model_id, "whisper-small-en-q8_0") {
        return Some(single_file_whisper("ggml-small.en-q8_0.bin", "9d75ff4ccfa0a8217870d7405cf8cef0a5579852"));
    }
    if same_text(model_id, "whisper-small-en-tdrz") {
        return Some(single_file_whisper("ggml-small.en-tdrz.bin", "b6c6e7e89af1a35c08e6de56b66ca6a02a2fdfa1"));
    }
    if same_text(model_id, "whisper-medium") {
        return Some(single_file_whisper("ggml-medium.bin", "fd9727b6e1217c2f614f9b698455c4ffd82463b4"));
    }
    if same_text(model_id, "whisper-medium-q5_0") {
        return Some(single_file_whisper("ggml-medium-q5_0.bin", "7718d4c1ec62ca96998f058114db98236937490e"));
    }
    if same_text(model_id, "whisper-medium-q8_0") {
        return Some(single_file_whisper("ggml-medium-q8_0.bin", "e66645948aff4bebbec71b3485c576f3d63af5d6"));
    }
    if same_text(model_id, "whisper-medium-en") {
        return Some(single_file_whisper("ggml-medium.en.bin", "8c30f0e44ce9560643ebd10bbe50cd20eafd3723"));
    }
    if same_text(model_id, "whisper-medium-en-q5_0") {
        return Some(single_file_whisper("ggml-medium.en-q5_0.bin", "bb3b5281bddd61605d6fc76bc5b92d8f20284c3b"));
    }
    if same_text(model_id, "whisper-medium-en-q8_0") {
        return Some(single_file_whisper("ggml-medium.en-q8_0.bin", "b1cf48c12c807e14881f634fb7b6c6ca867f6b38"));
    }
    if same_text(model_id, "whisper-large-v1") {
        return Some(single_file_whisper("ggml-large-v1.bin", "b1caaf735c4cc1429223d5a74f0f4d0b9b59a299"));
    }
    if same_text(model_id, "whisper-large-v2") {
        return Some(single_file_whisper("ggml-large-v2.bin", "0f4c8e34f21cf1a914c59d8b3ce882345ad349d6"));
    }
    if same_text(model_id, "whisper-large-v2-q5_0") {
        return Some(single_file_whisper("ggml-large-v2-q5_0.bin", "00e39f2196344e901b3a2bd5814807a769bd1630"));
    }
    if same_text(model_id, "whisper-large-v2-q8_0") {
        return Some(single_file_whisper("ggml-large-v2-q8_0.bin", "da97d6ca8f8ffbeeb5fd147f79010eeea194ba38"));
    }
    if same_text(model_id, "whisper-large-v3") {
        return Some(single_file_whisper("ggml-large-v3.bin", "ad82bf6a9043ceed055076d0fd39f5f186ff8062"));
    }
    if same_text(model_id, "whisper-large-v3-q5_0") {
        return Some(single_file_whisper("ggml-large-v3-q5_0.bin", "e6e2ed78495d403bef4b7cff42ef4aaadcfea8de"));
    }
    if same_text(model_id, "whisper-large-v3-turbo") {
        return Some(single_file_whisper("ggml-large-v3-turbo.bin", "4af2b29d7ec73d781377bfd1758ca957a807e941"));
    }
    if same_text(model_id, "whisper-large-v3-turbo-q5_0") {
        return Some(single_file_whisper("ggml-large-v3-turbo-q5_0.bin", "e050f7970618a659205450ad97eb95a18d69c9ee"));
    }
    if same_text(model_id, "whisper-large-v3-turbo-q8_0") {
        return Some(single_file_whisper("ggml-large-v3-turbo-q8_0.bin", "01bf15bedffe9f39d65c1b6ff9b687ea91f59e0e"));
    }
    if same_text(model_id, "whisper-tiny-coreml") {
        let mut files: Vec<ModelFile> = Vec::new();
        files.push(ModelFile { filename: "ggml-tiny-encoder.mlmodelc", remote_path: "ggml-tiny-encoder.mlmodelc.zip", sha1: "" });
        let c = ModelConfig { repo: DEFAULT_HF_REPO, branch: DEFAULT_HF_BRANCH, files, subdirectory: None };
        proof {
            assert(c.files@.map_values(|f: ModelFile| f.file_view()) =~= registry_entry(model_id@).unwrap().2);
        }
        return Some(c);
    }
    if same_text(model_id, "whisper-tiny-en-coreml") {
        let mut files: Vec<ModelFile> = Vec::new();
        files.push(ModelFile { filename: "ggml-tiny.en-encoder.mlmodelc", remote_path: "ggml-tiny.en-encoder.mlmodelc.zip", sha1: "" });
        let c = ModelConfig { repo: DEFAULT_HF_REPO, branch: DEFAULT_HF_BRANCH, files, subdirectory: None };
        proof {
            assert(c.files@.map_values(|f: ModelFile| f.file_view()) =~= registry_entry(model_id@).unwrap().2);
        }
        return Some(c);
    }
    if same_text(model_id, "whisper-base-coreml") {
        let mut files: Vec<ModelFile> = Vec::new();
        files.push(ModelFile { filename: "ggml-base-encoder.mlmodelc", remote_path: "ggml-base-encoder.mlmodelc.zip", sha1: "" });
        let c = ModelConfig { repo: DEFAULT_HF_REPO, branch: DEFAULT_HF_BRANCH, files, subdirectory: None };
        proof {
            assert(c.files@.map_values(|f: ModelFile| f.file_view()) =~= registry_entry(model_id@).unwrap().2);
        }
        return Some(c);
    }
    if same_text(model_id, "whisper-base-en-coreml") {
        let mut files: Vec<ModelFile> = Vec::new();
        files.push(ModelFile { filename: "ggml-base.en-encoder.mlmodelc", remote_path: "ggml-base.en-encoder.mlmodelc.zip", sha1: "" });
        let c = ModelConfig { repo: DEFAULT_HF_REPO, branch: DEFAULT_HF_BRANCH, files, subdirectory: None };
        proof {
            assert(c.files@.map_values(|f: ModelFile| f.file_view()) =~= registry_entry(model_id@).unwrap().2);
        }
        return Some(c);
    }
    if same_text(model_id, "whisper-small-coreml") {
        let mut files: Vec<ModelFile> = Vec::new();
        files.push(ModelFile { filename: "ggml-small-encoder.mlmodelc", remote_path: "ggml-small-encoder.mlmodelc.zip", sha1: "" });
        let c = ModelConfig { repo: DEFAULT_HF_REPO, branch: DEFAULT_HF_BRANCH, files, subdirectory: None };
        proof {
            assert(c.files@.map_values(|f: ModelFile| f.file_view()) =~= registry_entry(model_id@).unwrap().2);
        }
        return Some(c);
    }
    if same_text(model_id, "whisper-small-en-coreml") {
        let mut files: Vec<ModelFile> = Vec::new();
        files.push(ModelFile { filename: "ggml-small.en-encoder.mlmodelc", remote_path: "ggml-small.en-encoder.mlmodelc.zip", sha1: "" });
        let c = ModelConfig { repo: DEFAULT_HF_REPO, branch: DEFAULT_HF_BRANCH, files, subdirectory: None };
        proof {
            assert(c.files@.map_values(|f: ModelFile| f.file_view()) =~= registry_entry(model_id@).unwrap().2);
        }
        return Some(c);
    }
    if same_text(model_id, "whisper-medium-coreml") {
        let mut files: Vec<ModelFile> = Vec::new();
        files.push(ModelFile { filename: "ggml-medium-encoder.mlmodelc", remote_path: "ggml-medium-encoder.mlmodelc.zip", sha1: "" });
        let c = ModelConfig { repo: DEFAULT_HF_REPO, branch: DEFAULT_HF_BRANCH, files, subdirectory: None };
        proof {
            assert(c.files@.map_values(|f: ModelFile| f.file_view()) =~= registry_entry(model_id@).unwrap().2);
        }
        return Some(c);
    }
    if same_text(model_id, "whisper-medium-en-coreml") {
        let mut files: Vec<ModelFile> = Vec::new();
        files.push(ModelFile { filename: "ggml-medium.en-encoder.mlmodelc", remote_path: "ggml-medium.en-encoder.mlmodelc.zip", sha1: "" });
        let c = ModelConfig { repo: DEFAULT_HF_REPO, branch: DEFAULT_HF_BRANCH, files, subdirectory: None };
        proof {
            assert(c.files@.map_values(|f: ModelFile| f.file_view()) =~= registry_entry(model_id@).unwrap().2);
        }
        return Some(c);
    }
    if same_text(model_id, "whisper-large-v3-coreml") {
        let mut files: Vec<ModelFile> = Vec::new();
        files.push(ModelFile { filename: "ggml-large-v3-encoder.mlmodelc", remote_path: "ggml-large-v3-encoder.mlmodelc.zip", sha1: "" });
        let c = ModelConfig { repo: DEFAULT_HF_REPO, branch: DEFAULT_HF_BRANCH, files, subdirectory: None };
        proof {
            assert(c.files@.map_values(|f: ModelFile| f.file_view()) =~= registry_entry(model_id@).unwrap().2);
        }
        return Some(c);
    }
    if same_text(model_id, "whisper-large-v3-turbo-coreml") {
        let mut files: Vec<ModelFile> = Vec::new();
        files.push(ModelFile { filename: "ggml-large-v3-turbo-encoder.mlmodelc", remote_path: "ggml-large-v3-turbo-encoder.mlmodelc.zip", sha1: "" });
        let c = ModelConfig { repo: DEFAULT_HF_REPO, branch: DEFAULT_HF_BRANCH, files, subdirectory: None };
        proof {
            assert(c.files@.map_values(|f: ModelFile| f.file_view()) =~= registry_entry(model_id@).unwrap().2);
        }
        return Some(c);
    }
    if same_text(model_id, "parakeet-nemotron") {
        let mut files: Vec<ModelFile> = Vec::new();
        files.push(ModelFile { filename: "decoder_joint.onnx", remote_path: "nemotron-speech-streaming-en-0.6b/decoder_joint.onnx", sha1: "" });
        files.push(ModelFile { filename: "encoder.onnx", remote_path: "nemotron-speech-streaming-en-0.6b/encoder.onnx", sha1: "" });
        files.push(ModelFile { filename: "encoder.onnx.data", remote_path: "nemotron-speech-streaming-en-0.6b/encoder.onnx.data", sha1: "" });
        files.push(ModelFile { filename: "tokenizer.model", remote_path: "nemotron-speech-streaming-en-0.6b/tokenizer.model", sha1: "" });
        let c = ModelConfig { repo: "altunenes/parakeet-rs", branch: DEFAULT_HF_BRANCH, files, subdirectory: Some("parakeet-nemotron") };
        proof {
            assert(c.files@.map_values(|f: ModelFile| f.file_view()) =~= registry_entry(model_id@).unwrap().2);
        }
        return Some(c);
    }
    if same_text(model_id, "symspell-en-82k") {
        let mut files: Vec<ModelFile> = Vec::new();
        files.push(ModelFile { filename: "frequency_dictionary_en_82_765.txt", remote_path: "frequency_dictionary_en_82_765.txt", sha1: "" });
        let c = ModelConfig { repo: "github:wolfgarbe/SymSpell", branch: "master", files, subdirectory: None };
        proof {
            assert(c.files@.map_values(|f: ModelFile| f.file_view()) =~= registry_entry(model_id@).unwrap().2);
        }
        return Some(c);
    }
    if same_text(model_id, "qwen2.5-0.5b-instruct") {
        let mut files: Vec<ModelFile> = Vec::new();
        files.push(ModelFile { filename: "qwen2.5-0.5b-instruct-q4_k_m.gguf", remote_path: "qwen2.5-0.5b-instruct-q4_k_m.gguf", sha1: "" });
        let c = ModelConfig { repo: "Qwen/Qwen2.5-0.5B-Instruct-GGUF", branch: DEFAULT_HF_BRANCH, files, subdirectory: Some("Qwen2.5-0.5B-Instruct") };
        proof {
            assert(c.files@.map_values(|f: ModelFile| f.file_view()) =~= registry_entry(model_id@).unwrap().2);
        }
        return Some(c);
    }
    if same_text(model_id, "qwen2.5-0.5b-instruct-tokenizer") {
        let mut files: Vec<ModelFile> = Vec::new();
        files.push(ModelFile { filename: "tokenizer.json", remote_path: "tokenizer.json", sha1: "" });
        files.push(ModelFile { filename: "tokenizer_config.json", remote_path: "tokenizer_config.json", sha1: "" });
        files.push(ModelFile { filename: "vocab.json", remote_path: "vocab.json", sha1: "" });
        files.push(ModelFile { filename: "merges.txt", remote_path: "merges.txt", sha1: "" });
        let c = ModelConfig { repo: "Qwen/Qwen2.5-0.5B-Instruct", branch: DEFAULT_HF_BRANCH, files, subdirectory: Some("Qwen2.5-0.5B-Instruct") };
        proof {
            assert(c.files@.map_values(|f: ModelFile| f.file_view()) =~= registry_entry(model_id@).unwrap().2);
        }
        return Some(c);
    }
    if same_text(model_id, "qwen2.5-0.5b-safetensors") {
        let mut files: Vec<ModelFile> = Vec::new();
        files.push(ModelFile { filename: "model.safetensors", remote_path: "model.safetensors", sha1: "" });
        files.push(ModelFile { filename: "config.json", remote_path: "config.json", sha1: "" });
        files.push(ModelFile { filename: "generation_config.json", remote_path: "generation_config.json", sha1: "" });
        files.push(ModelFile { filename: "tokenizer.json", remote_path: "tokenizer.json", sha1: "" });
        files.push(ModelFile { filename: "tokenizer_config.json", remote_path: "tokenizer_config.json", sha1: "" });
        files.push(ModelFile { filename: "vocab.json", remote_path: "vocab.json", sha1: "" });
        files.push(ModelFile { filename: "merges.txt", remote_path: "merges.txt", sha1: "" });
        let c = ModelConfig { repo: "Qwen/Qwen2.5-0.5B", branch: DEFAULT_HF_BRANCH, files, subdirectory: Some("Qwen2.5-0.5B-GPU") };
        proof {
            assert(c.files@.map_values(|f: ModelFile| f.file_view()) =~= registry_entry(model_id@).unwrap().2);
        }
        return Some(c);
    }
    None
}

} // verus!
