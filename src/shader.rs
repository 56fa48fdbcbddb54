//! Checking the outcome of shader compilation and program linking, and
//! turning the driver's info log into text.
use vstd::prelude::*;

verus! {

/// What `String::from_utf8_lossy` makes of a byte sequence.
pub uninterp spec fn lossy_text_of(b: Seq<u8>) -> Seq<char>;

/// The driver reports success with any non-zero status (`GL_FALSE` is 0).
pub open spec fn status_ok_spec(status: i32) -> bool {
    status != 0
}

/// Every byte is below 128.
pub open spec fn is_ascii_bytes(b: Seq<u8>) -> bool {
    forall|i: int| 0 <= i < b.len() ==> #[trigger] b[i] < 128
}

/// The characters of an ASCII byte sequence, one per byte.
pub open spec fn ascii_chars(b: Seq<u8>) -> Seq<char> {
    b.map_values(|x: u8| x as char)
}

/// `k` is where the text of a NUL-terminated buffer ends: no NUL before it,
/// and a NUL or the end of the buffer at it.
pub open spec fn is_text_end(b: Seq<u8>, k: int) -> bool {
    &&& 0 <= k <= b.len()
    &&& forall|j: int| 0 <= j < k ==> #[trigger] b[j] != 0
    &&& (k == b.len() || b[k] == 0)
}

/// The bytes of a NUL-terminated buffer up to its first NUL.
pub open spec fn text_bytes(b: Seq<u8>) -> Seq<u8> {
    b.take(choose|k: int| is_text_end(b, k))
}

/// Which build step a diagnostic belongs to.
#[derive(Clone, Copy, Debug, PartialEq, Eq, Structural)]
pub enum BuildStage {
    VertexShader,
    FragmentShader,
    ProgramLink,
}

/// Why a shader program could not be built.
#[derive(Clone, Copy, Debug, PartialEq, Eq, Structural)]
pub enum BuildError {
    VertexCompile,
    FragmentCompile,
    Link,
    NoProgram,
}

pub open spec fn log_prefix_spec(stage: BuildStage) -> Seq<char> {
    match stage {
        BuildStage::ProgramLink => "ERROR: "@,
        _ => ""@,
    }
}

impl BuildStage {
    /// The text printed before a diagnostic of this stage.
    pub fn log_prefix(self) -> (r: &'static str)
        ensures
            r@ == log_prefix_spec(self),
    {
        proof {
            reveal_strlit("ERROR: ");
            reveal_strlit("");
        }
        match self {
            BuildStage::ProgramLink => "ERROR: ",
            _ => "",
        }
    }
}

/// Whether a compile or link status reports success.
pub fn status_ok(status: i32) -> (r: bool)
    ensures
        r == status_ok_spec(status),
{
    status != 0
}

/// The length of the log buffer to allocate for a queried info-log length;
/// a negative answer gives an empty buffer.
pub fn log_buffer_len(queried: i32) -> (r: usize)
    ensures
        queried >= 0 ==> r == queried,
        queried < 0 ==> r == 0,
{
    if queried < 0 {
        0
    } else {
        queried as usize
    }
}

/// A zeroed buffer of `len` bytes for the driver to write its log into.
pub fn new_log_buffer(len: usize) -> (r: Vec<u8>)
    ensures
        r@.len() == len,
        forall|i: int| 0 <= i < len ==> #[trigger] r@[i] == 0,
{
    let mut buf: Vec<u8> = Vec::with_capacity(len);
    let mut i: usize = 0;
    while i < len
        invariant
            i <= len,
            buf@.len() == i,
            forall|j: int| 0 <= j < i ==> #[trigger] buf@[j] == 0,
        decreases len - i,
    {
        buf.push(0);
        i = i + 1;
    }
    buf
}

/// Relies on `String::from_utf8_lossy`: its result depends on the bytes
/// alone, and bytes that are valid UTF-8 (ASCII bytes are) come back as the
/// same text.
#[verifier::external_body]
fn decode_lossy(b: &[u8]) -> (r: String)
    ensures
        r@ == lossy_text_of(b@),
        is_ascii_bytes(b@) ==> r@ == ascii_chars(b@),
{
    String::from_utf8_lossy(b).into_owned()
}

proof fn lemma_text_end_unique(b: Seq<u8>, k: int)
    requires
        is_text_end(b, k),
    ensures
        text_bytes(b) == b.take(k),
{
    let c = choose|c: int| is_text_end(b, c);
    assert(is_text_end(b, c));
    if c < k {
        assert(b[c] != 0);
    } else if k < c {
        assert(b[k] != 0);
    }
}

/// The text of a NUL-terminated log buffer: the bytes before the first NUL,
/// decoded as UTF-8 with invalid sequences replaced.
pub fn log_text(buf: &Vec<u8>) -> (r: String)
    ensures
        r@ == lossy_text_of(text_bytes(buf@)),
        is_ascii_bytes(text_bytes(buf@)) ==> r@ == ascii_chars(text_bytes(buf@)),
{
    let mut text: Vec<u8> = Vec::new();
    let mut i: usize = 0;
    while i < buf.len() && buf[i] != 0
        invariant
            i <= buf@.len(),
            text@ == buf@.take(i as int),
            forall|j: int| 0 <= j < i ==> #[trigger] buf@[j] != 0,
        decreases buf@.len() - i,
    {
        text.push(buf[i]);
        i = i + 1;
        assert(text@ =~= buf@.take(i as int));
    }
    proof {
        lemma_text_end_unique(buf@, i as int);
    }
    decode_lossy(text.as_slice())
}

pub open spec fn diagnostic_spec(status: i32, log: Seq<u8>) -> Option<Seq<char>> {
    if status_ok_spec(status) {
        None
    } else {
        Some(lossy_text_of(text_bytes(log)))
    }
}

/// The diagnostic to report for a compile or link status and the log the
/// driver wrote: none on success, the log's text on failure.
pub fn diagnostic(status: i32, log: &Vec<u8>) -> (r: Option<String>)
    ensures
        r.is_none() <==> status_ok_spec(status),
        r matches Some(t) ==> Some(t@) == diagnostic_spec(status, log@),
        !status_ok_spec(status) && is_ascii_bytes(text_bytes(log@)) ==> (r matches Some(t) && t@
            == ascii_chars(text_bytes(log@))),
{
    if status_ok(status) {
        None
    } else {
        Some(log_text(log))
    }
}

pub open spec fn program_outcome_spec(
    vertex_status: i32,
    fragment_status: i32,
    link_status: i32,
    program: u32,
) -> Result<u32, BuildError> {
    if !status_ok_spec(vertex_status) {
        Err(BuildError::VertexCompile)
    } else if !status_ok_spec(fragment_status) {
        Err(BuildError::FragmentCompile)
    } else if !status_ok_spec(link_status) {
        Err(BuildError::Link)
    } else if program == 0 {
        Err(BuildError::NoProgram)
    } else {
        Ok(program)
    }
}

/// The outcome of building a program from the two compile statuses, the
/// link status and the handle the driver gave: the handle when every step
/// succeeded and it is non-zero, else the first step that failed.
pub fn program_outcome(
    vertex_status: i32,
    fragment_status: i32,
    link_status: i32,
    program: u32,
) -> (r: Result<u32, BuildError>)
    ensures
        r == program_outcome_spec(vertex_status, fragment_status, link_status, program),
        r is Ok <==> (status_ok_spec(vertex_status) && status_ok_spec(fragment_status)
            && status_ok_spec(link_status) && program != 0),
        r matches Ok(p) ==> p == program && p != 0,
{
    if !status_ok(vertex_status) {
        Err(BuildError::VertexCompile)
    } else if !status_ok(fragment_status) {
        Err(BuildError::FragmentCompile)
    } else if !status_ok(link_status) {
        Err(BuildError::Link)
    } else if program == 0 {
        Err(BuildError::NoProgram)
    } else {
        Ok(program)
    }
}

} // verus!
