//! What the details panel tells of a file's content: whether it is binary,
//! and what kind of file its extension stands for.

use vstd::prelude::*;
use crate::text::{chars_are, chars_of, lowercase, to_lowercase};

verus! {

/// Number of NUL bytes among the first `n` bytes.
pub open spec fn nul_count(bytes: Seq<u8>, n: int) -> int
    decreases n,
{
    if n <= 0 {
        0
    } else {
        nul_count(bytes, n - 1) + if bytes[n - 1] == 0 {
            1int
        } else {
            0int
        }
    }
}

/// Number of control characters other than tab, line feed and carriage
/// return among the first `n` bytes.
pub open spec fn control_count(bytes: Seq<u8>, n: int) -> int
    decreases n,
{
    if n <= 0 {
        0
    } else {
        control_count(bytes, n - 1) + if bytes[n - 1] < 32 && bytes[n - 1] != 9 && bytes[n - 1]
            != 10 && bytes[n - 1] != 13 {
            1int
        } else {
            0int
        }
    }
}

/// The number of leading bytes that are sampled for control characters.
pub open spec fn sample_size(bytes: Seq<u8>) -> int {
    if bytes.len() < 1024 {
        bytes.len() as int
    } else {
        1024
    }
}

/// Content counts as binary when it holds a NUL byte, or when more than a
/// quarter of its first 1024 bytes are control characters.
pub open spec fn is_binary(bytes: Seq<u8>) -> bool {
    nul_count(bytes, bytes.len() as int) > 0 || control_count(bytes, sample_size(bytes))
        > sample_size(bytes) / 4
}

/// Whether content is binary rather than text.
pub fn is_binary_content(bytes: &[u8]) -> (r: bool)
    ensures
        r == is_binary(bytes@),
{
    let mut i: usize = 0;
    while i < bytes.len()
        invariant
            i <= bytes.len(),
            nul_count(bytes@, i as int) == 0,
        decreases bytes.len() - i,
    {
        if bytes[i] == 0 {
            proof {
                lemma_nul_count_grows(bytes@, i + 1, bytes@.len() as int);
            }
            return true;
        }
        i += 1;
    }
    let sample: usize = if bytes.len() < 1024 {
        bytes.len()
    } else {
        1024
    };
    let mut non_printable: usize = 0;
    let mut k: usize = 0;
    while k < sample
        invariant
            k <= sample,
            sample <= bytes.len(),
            non_printable <= k,
            non_printable == control_count(bytes@, k as int),
        decreases sample - k,
    {
        let b = bytes[k];
        if b < 32 && b != 9 && b != 10 && b != 13 {
            non_printable += 1;
        }
        k += 1;
    }
    non_printable > sample / 4
}

/// The count of NUL bytes does not fall as more bytes are counted.
proof fn lemma_nul_count_grows(bytes: Seq<u8>, n: int, m: int)
    requires
        n <= m,
    ensures
        0 <= nul_count(bytes, n) <= nul_count(bytes, m),
    decreases m - n,
{
    if n < m {
        lemma_nul_count_grows(bytes, n, m - 1);
    } else {
        lemma_nul_count_nonnegative(bytes, n);
    }
}

/// No count of NUL bytes is negative.
proof fn lemma_nul_count_nonnegative(bytes: Seq<u8>, n: int)
    ensures
        0 <= nul_count(bytes, n),
    decreases n,
{
    if n > 0 {
        lemma_nul_count_nonnegative(bytes, n - 1);
    }
}

/// The kind of file that an extension in lower case stands for.
pub open spec fn type_of_extension(ext: Seq<char>) -> Seq<char> {
    if ext == "rs"@ {
        "Rust source"@
    } else if ext == "py"@ {
        "Python script"@
    } else if ext == "js"@ {
        "JavaScript"@
    } else if ext == "ts"@ {
        "TypeScript"@
    } else if ext == "html"@ {
        "HTML document"@
    } else if ext == "css"@ {
        "CSS stylesheet"@
    } else if ext == "json"@ {
        "JSON data"@
    } else if ext == "toml"@ {
        "TOML config"@
    } else if ext == "yaml"@ || ext == "yml"@ {
        "YAML config"@
    } else if ext == "md"@ {
        "Markdown document"@
    } else if ext == "txt"@ {
        "Text file"@
    } else if ext == "log"@ {
        "Log file"@
    } else if ext == "png"@ || ext == "jpg"@ || ext == "jpeg"@ || ext == "gif"@ || ext == "bmp"@ {
        "Image file"@
    } else if ext == "mp3"@ || ext == "wav"@ || ext == "flac"@ {
        "Audio file"@
    } else if ext == "mp4"@ || ext == "avi"@ || ext == "mkv"@ {
        "Video file"@
    } else if ext == "pdf"@ {
        "PDF document"@
    } else if ext == "zip"@ || ext == "tar"@ || ext == "gz"@ || ext == "7z"@ {
        "Archive"@
    } else if ext == "exe"@ || ext == "dll"@ || ext == "so"@ {
        "Executable"@
    } else {
        "Unknown type"@
    }
}

/// The kind of file that the extension of a path stands for, without regard
/// to case.
pub open spec fn file_type(extension: Option<Seq<char>>) -> Seq<char> {
    match extension {
        Some(ext) => type_of_extension(lowercase(ext)),
        None => "No extension"@,
    }
}

/// Names the kind of a file by the extension of its path.
pub fn guess_file_type(extension: Option<&str>) -> (r: &'static str)
    ensures
        r@ == file_type(
            match extension {
                Some(ext) => Some(ext@),
                None => None,
            },
        ),
{
    match extension {
        Some(given) => {
            let lower = to_lowercase(given);
            let ext = chars_of(lower.as_str());
            if chars_are(&ext, "rs") {
                "Rust source"
            } else if chars_are(&ext, "py") {
                "Python script"
            } else if chars_are(&ext, "js") {
                "JavaScript"
            } else if chars_are(&ext, "ts") {
                "TypeScript"
            } else if chars_are(&ext, "html") {
                "HTML document"
            } else if chars_are(&ext, "css") {
                "CSS stylesheet"
            } else if chars_are(&ext, "json") {
                "JSON data"
            } else if chars_are(&ext, "toml") {
                "TOML config"
            } else if chars_are(&ext, "yaml") || chars_are(&ext, "yml") {
                "YAML config"
            } else if chars_are(&ext, "md") {
                "Markdown document"
            } else if chars_are(&ext, "txt") {
                "Text file"
            } else if chars_are(&ext, "log") {
                "Log file"
            } else if chars_are(&ext, "png") || chars_are(&ext, "jpg") || chars_are(&ext, "jpeg")
                || chars_are(&ext, "gif") || chars_are(&ext, "bmp") {
                "Image file"
            } else if chars_are(&ext, "mp3") || chars_are(&ext, "wav") || chars_are(&ext, "flac") {
                "Audio file"
            } else if chars_are(&ext, "mp4") || chars_are(&ext, "avi") || chars_are(&ext, "mkv") {
                "Video file"
            } else if chars_are(&ext, "pdf") {
                "PDF document"
            } else if chars_are(&ext, "zip") || chars_are(&ext, "tar") || chars_are(&ext, "gz")
                || chars_are(&ext, "7z") {
                "Archive"
            } else if chars_are(&ext, "exe") || chars_are(&ext, "dll") || chars_are(&ext, "so") {
                "Executable"
            } else {
                "Unknown type"
            }
        },
        None => "No extension",
    }
}

} // verus!
