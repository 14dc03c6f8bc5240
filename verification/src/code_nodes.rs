//! Code nodes: the stored source definitions, the per-language command
//! builder, and the pipeline that turns the stored, escaped source text back
//! into a runnable file bundle.

use vstd::prelude::*;

use crate::enums::{CodeLanguage, ExecError, OutputType};
use crate::text::strip_trailing_nuls;

verus! {

/// A stored code node: a reusable unit of executable logic.  The `code`
/// field holds the source text JSON-escaped, exactly as the creation path
/// stored it; it must be de-escaped before execution.
#[derive(Clone, Debug, PartialEq, Eq)]
pub struct Model {
    pub id: i32,
    pub name: String,
    pub function_name: String,
    pub code: String,
    pub output_name: String,
    pub output_type: OutputType,
    pub language: CodeLanguage,
}

/// An argument vector under construction, one word at a time.
pub struct Command {
    command: Vec<String>,
}

impl View for Command {
    type V = Seq<Seq<char>>;

    closed spec fn view(&self) -> Seq<Seq<char>> {
        self.command.deep_view()
    }
}

impl Command {
    pub fn new() -> (r: Self)
        ensures
            r@ == Seq::<Seq<char>>::empty(),
    {
        let r = Self { command: vec![] };
        proof {
            assert(r@ =~= Seq::<Seq<char>>::empty());
        }
        r
    }

    pub fn add(&mut self, arg: &str)
        ensures
            final(self)@ == old(self)@.push(arg@),
    {
        self.command.push(arg.to_owned());
        proof {
            assert(self@ =~= old(self)@.push(arg@));
        }
    }

    pub fn to_vec(&self) -> (r: Vec<String>)
        ensures
            r.deep_view() == self@,
    {
        let mut r: Vec<String> = Vec::new();
        let mut i: usize = 0;
        while i < self.command.len()
            invariant
                i <= self.command.len(),
                r@ =~= self.command@.take(i as int),
            decreases self.command.len() - i,
        {
            r.push(self.command[i].clone());
            proof {
                assert(r@ =~= self.command@.take(i + 1));
            }
            i = i + 1;
        }
        proof {
            assert(r@ =~= self.command@);
            assert(r.deep_view() =~= self@);
        }
        r
    }
}

/// One "--with <package>" pair per dependency, in the declared order; no
/// deduplication and no validation of package names is performed.
pub open spec fn with_flags(deps: Seq<Seq<char>>) -> Seq<Seq<char>>
    decreases deps.len(),
{
    if deps.len() == 0 {
        Seq::empty()
    } else {
        with_flags(deps.drop_last()) + seq!["--with"@, deps.last()]
    }
}

/// The exact command line run inside the container for a Python node:
/// the fixed interpreter entry point, the dependency flags, the uploaded
/// module's name and entry function, then the caller's arguments verbatim.
pub open spec fn python_command(
    name: Seq<char>,
    function_name: Seq<char>,
    args: Seq<Seq<char>>,
    deps: Seq<Seq<char>>,
) -> Seq<Seq<char>> {
    seq!["uv"@, "run"@, "-q"@] + with_flags(deps) + seq!["main.py"@, name, function_name] + args
}

/// The dependency list a command is built from: absent means none.
pub open spec fn dep_views(dependencies: Option<&Vec<String>>) -> Seq<Seq<char>> {
    match dependencies {
        Some(deps) => deps.deep_view(),
        None => Seq::empty(),
    }
}

proof fn lemma_with_flags_len(deps: Seq<Seq<char>>)
    ensures
        with_flags(deps).len() == 2 * deps.len(),
    decreases deps.len(),
{
    if deps.len() > 0 {
        lemma_with_flags_len(deps.drop_last());
    }
}

proof fn lemma_with_flags_index(deps: Seq<Seq<char>>, i: int)
    requires
        0 <= i < deps.len(),
    ensures
        with_flags(deps)[2 * i] == "--with"@,
        with_flags(deps)[2 * i + 1] == deps[i],
    decreases deps.len(),
{
    lemma_with_flags_len(deps);
    let shorter = deps.drop_last();
    lemma_with_flags_len(shorter);
    if i < deps.len() - 1 {
        lemma_with_flags_index(shorter, i);
        assert(with_flags(deps)[2 * i] == with_flags(shorter)[2 * i]);
        assert(with_flags(deps)[2 * i + 1] == with_flags(shorter)[2 * i + 1]);
        assert(shorter[i] == deps[i]);
    } else {
        assert(with_flags(deps)[2 * i] == "--with"@);
        assert(with_flags(deps)[2 * i + 1] == deps.last());
    }
}

/// The layout of a built Python command, spelled out position by position:
/// it always begins with "uv", "run", "-q"; it carries one "--with",
/// dependency pair per dependency in input order; "main.py", the node name
/// and the entry function follow; the arguments close it in input order.
pub proof fn lemma_python_command_layout(
    name: Seq<char>,
    function_name: Seq<char>,
    args: Seq<Seq<char>>,
    deps: Seq<Seq<char>>,
)
    ensures
        python_command(name, function_name, args, deps).len() == 6 + 2 * deps.len() + args.len(),
        python_command(name, function_name, args, deps)[0] == "uv"@,
        python_command(name, function_name, args, deps)[1] == "run"@,
        python_command(name, function_name, args, deps)[2] == "-q"@,
        forall|i: int| #![trigger deps[i]]
            0 <= i < deps.len() ==> python_command(name, function_name, args, deps).subrange(
                3 + 2 * i,
                5 + 2 * i,
            ) == seq!["--with"@, deps[i]],
        python_command(name, function_name, args, deps)[3 + 2 * deps.len() as int] == "main.py"@,
        python_command(name, function_name, args, deps)[4 + 2 * deps.len() as int] == name,
        python_command(name, function_name, args, deps)[5 + 2 * deps.len() as int] == function_name,
        forall|j: int| #![trigger args[j]]
            0 <= j < args.len() ==> python_command(name, function_name, args, deps)[6 + 2
                * deps.len() + j] == args[j],
{
    lemma_with_flags_len(deps);
    let pre = seq!["uv"@, "run"@, "-q"@];
    let wf = with_flags(deps);
    let mid = seq!["main.py"@, name, function_name];
    let c = python_command(name, function_name, args, deps);
    let n = deps.len() as int;
    assert forall|i: int| #![trigger deps[i]] 0 <= i < deps.len() implies c.subrange(
        3 + 2 * i,
        5 + 2 * i,
    ) == seq!["--with"@, deps[i]] by {
        lemma_with_flags_index(deps, i);
        assert(((pre + wf) + mid)[3 + 2 * i] == (pre + wf)[3 + 2 * i]);
        assert((pre + wf)[3 + 2 * i] == wf[2 * i]);
        assert(((pre + wf) + mid)[3 + 2 * i + 1] == (pre + wf)[3 + 2 * i + 1]);
        assert((pre + wf)[3 + 2 * i + 1] == wf[2 * i + 1]);
        assert(c[3 + 2 * i] == ((pre + wf) + mid)[3 + 2 * i]);
        assert(c[3 + 2 * i + 1] == ((pre + wf) + mid)[3 + 2 * i + 1]);
        assert(c.subrange(3 + 2 * i, 5 + 2 * i) =~= seq!["--with"@, deps[i]]);
    }
    assert forall|j: int| #![trigger args[j]] 0 <= j < args.len() implies c[6 + 2 * n + j]
        == args[j] by {
        assert(c[6 + 2 * n + j] == args[6 + 2 * n + j - (6 + 2 * n)]);
    }
}

impl Model {
    /// Builds the command line that runs this node with the given positional
    /// arguments and optional dependency list.  Only Python is implemented;
    /// a JavaScript node is refused outright rather than given an empty or
    /// partial command.
    pub fn get_command(&self, args: &Vec<String>, dependencies: Option<&Vec<String>>) -> (r: Result<
        Vec<String>,
        ExecError,
    >)
        ensures
            r is Ok <==> self.language is Python,
            r is Ok ==> r->Ok_0.deep_view() == python_command(
                self.name@,
                self.function_name@,
                args.deep_view(),
                dep_views(dependencies),
            ),
            r is Err ==> r->Err_0 == ExecError::UnsupportedLanguage,
    {
        match self.language {
            CodeLanguage::Python => {
                let mut command = Command::new();
                command.add("uv");
                command.add("run");
                command.add("-q");
                proof {
                    assert(command@ =~= seq!["uv"@, "run"@, "-q"@]);
                }
                if let Some(deps) = dependencies {
                    let mut i: usize = 0;
                    while i < deps.len()
                        invariant
                            i <= deps.len(),
                            command@ == seq!["uv"@, "run"@, "-q"@] + with_flags(
                                deps.deep_view().take(i as int),
                            ),
                        decreases deps.len() - i,
                    {
                        command.add("--with");
                        command.add(deps[i].as_str());
                        proof {
                            let dv = deps.deep_view();
                            assert(dv.take(i + 1).drop_last() =~= dv.take(i as int));
                            assert(dv.take(i + 1).last() == dv[i as int]);
                            assert(dv[i as int] == deps@[i as int]@);
                            assert(command@ =~= seq!["uv"@, "run"@, "-q"@] + with_flags(
                                dv.take(i + 1),
                            ));
                        }
                        i = i + 1;
                    }
                    proof {
                        assert(deps.deep_view().take(deps.len() as int) =~= deps.deep_view());
                    }
                }
                proof {
                    assert(command@ == seq!["uv"@, "run"@, "-q"@] + with_flags(
                        dep_views(dependencies),
                    ));
                }
                command.add("main.py");
                command.add(self.name.as_str());
                command.add(self.function_name.as_str());
                proof {
                    assert(command@ =~= seq!["uv"@, "run"@, "-q"@] + with_flags(
                        dep_views(dependencies),
                    ) + seq!["main.py"@, self.name@, self.function_name@]);
                }
                let mut j: usize = 0;
                while j < args.len()
                    invariant
                        j <= args.len(),
                        command@ == seq!["uv"@, "run"@, "-q"@] + with_flags(
                            dep_views(dependencies),
                        ) + seq!["main.py"@, self.name@, self.function_name@]
                            + args.deep_view().take(j as int),
                    decreases args.len() - j,
                {
                    command.add(args[j].as_str());
                    proof {
                        let av = args.deep_view();
                        assert(av[j as int] == args@[j as int]@);
                        assert(av.take(j + 1) =~= av.take(j as int).push(av[j as int]));
                        assert(command@ =~= seq!["uv"@, "run"@, "-q"@] + with_flags(
                            dep_views(dependencies),
                        ) + seq!["main.py"@, self.name@, self.function_name@] + av.take(j + 1));
                    }
                    j = j + 1;
                }
                proof {
                    assert(args.deep_view().take(args.len() as int) =~= args.deep_view());
                    assert(command@ == python_command(
                        self.name@,
                        self.function_name@,
                        args.deep_view(),
                        dep_views(dependencies),
                    ));
                }
                Ok(command.to_vec())
            },
            CodeLanguage::JavaScript => Err(ExecError::UnsupportedLanguage),
        }
    }
}


/// The text a JSON string literal denotes, or nothing when the input is not
/// one.  Stands for what `serde_json::from_str::<String>` returns.
pub uninterp spec fn json_decoded_text(s: Seq<char>) -> Option<Seq<char>>;

/// The JSON string literal that denotes a given text.  Stands for what
/// `serde_json::to_string` returns on a string.
pub uninterp spec fn json_encoded_text(s: Seq<char>) -> Seq<char>;

/// The text with its backslash escape sequences rewritten to the characters
/// they denote, or nothing when a backslash starts no valid sequence.
/// Stands for what `unescape::unescape` returns.
pub uninterp spec fn unescaped_text(s: Seq<char>) -> Option<Seq<char>>;

/// Text that holds no backslash at all, so that de-escaping cannot touch it.
pub open spec fn no_backslash(s: Seq<char>) -> bool {
    forall|i: int| 0 <= i < s.len() ==> s[i] != '\\'
}

/// Relies on serde_json::from_str::<String>: parses a JSON string literal;
/// succeeds exactly on valid ones, and the result depends on the input text
/// alone.
#[verifier::external_body]
fn decode_json_string(s: &str) -> (r: Option<String>)
    ensures
        r is Some <==> json_decoded_text(s@) is Some,
        r is Some ==> r->0@ == json_decoded_text(s@)->0,
{
    serde_json::from_str::<String>(s).ok()
}

/// Relies on serde_json::to_string: serializing a string never fails, the
/// result depends on the input text alone, and serde_json::from_str parses
/// the result back to exactly the input.
#[verifier::external_body]
fn encode_json_string(s: &str) -> (r: String)
    ensures
        r@ == json_encoded_text(s@),
        json_decoded_text(r@) == Some(s@),
{
    serde_json::to_string(s).unwrap()
}

/// Relies on unescape::unescape: rewrites backslash escape sequences, fails
/// exactly when a backslash starts no valid sequence, the result depends on
/// the input text alone, and text without backslashes comes back unchanged.
#[verifier::external_body]
fn unescape_text(s: &str) -> (r: Option<String>)
    ensures
        r is Some <==> unescaped_text(s@) is Some,
        r is Some ==> r->0@ == unescaped_text(s@)->0,
        no_backslash(s@) ==> r is Some && r->0@ == s@,
{
    unescape::unescape(s)
}

/// What de-escaping recovers from a stored `code` field: the JSON string
/// literal is parsed, remaining backslash sequences are rewritten, and
/// trailing NUL padding is stripped.  Nothing is recovered from a field
/// that is not a valid JSON string literal or escapes nothing valid.
pub open spec fn restored_text(stored: Seq<char>) -> Option<Seq<char>> {
    match json_decoded_text(stored) {
        Some(decoded) => match unescaped_text(decoded) {
            Some(unescaped) => Some(strip_trailing_nuls(unescaped)),
            None => None,
        },
        None => None,
    }
}

/// De-escapes a node's stored source text so it can be written to a file
/// and executed.  Fails exactly when the stored text is malformed.
pub fn alter_code(node: &Model) -> (r: Result<String, ExecError>)
    ensures
        r is Ok <==> restored_text(node.code@) is Some,
        r is Ok ==> r->Ok_0@ == restored_text(node.code@)->0,
        r is Err ==> r->Err_0 == ExecError::DecodeFailure,
{
    let decoded = match decode_json_string(node.code.as_str()) {
        Some(decoded) => decoded,
        None => {
            return Err(ExecError::DecodeFailure);
        },
    };
    let unescaped = match unescape_text(decoded.as_str()) {
        Some(unescaped) => unescaped,
        None => {
            return Err(ExecError::DecodeFailure);
        },
    };
    Ok(crate::text::strip_nul_padding(unescaped.as_str()))
}

/// Escapes source text the way the creation path stores it, and only hands
/// the stored form out after checking that de-escaping restores the input
/// exactly.
///
/// De-escaping reverses the escaping applied at creation time: for any text
/// free of literal backslashes and of trailing NUL padding — newlines,
/// quotes and interior NUL bytes included — this returns the stored form,
/// and the restored text equals the input.
pub fn store_code(text: &str) -> (r: Option<String>)
    ensures
        r is Some ==> r->0@ == json_encoded_text(text@),
        r is Some <==> restored_text(json_encoded_text(text@)) == Some(text@),
        no_backslash(text@) && strip_trailing_nuls(text@) == text@ ==> r is Some,
{
    let encoded = encode_json_string(text);
    let decoded = match decode_json_string(encoded.as_str()) {
        Some(decoded) => decoded,
        None => {
            return None;
        },
    };
    let unescaped = match unescape_text(decoded.as_str()) {
        Some(unescaped) => unescaped,
        None => {
            return None;
        },
    };
    let restored = crate::text::strip_nul_padding(unescaped.as_str());
    if restored == text.to_owned() {
        Some(encoded)
    } else {
        None
    }
}

/// A packaged code node: the de-escaped source under its final file name,
/// ready to be archived and uploaded into a container's working directory.
#[derive(Clone, Debug, PartialEq, Eq)]
pub struct Bundle {
    pub file_name: String,
    pub content: String,
}

/// What it means for a bundle to be the package of a node: the content is
/// the de-escaped stored source, and the file name is the node's name with
/// the extension of its language.
pub open spec fn is_package_of(b: Bundle, node: Model) -> bool {
    &&& restored_text(node.code@) is Some
    &&& b.content@ == restored_text(node.code@)->0
    &&& b.file_name@ == node.name@ + "."@ + node.language.spec_extension()
}

/// Packaging is idempotent: any two bundles packaged from the same code
/// node carry byte-identical source content under the same file name.
pub proof fn lemma_package_idempotent(node: Model, b1: Bundle, b2: Bundle)
    requires
        is_package_of(b1, node),
        is_package_of(b2, node),
    ensures
        b1.content@ == b2.content@,
        b1.file_name@ == b2.file_name@,
{
}

impl Model {
    /// Packages this node: de-escapes the stored source and names the file
    /// after the node and its language.  Fails exactly when the stored
    /// source is malformed.
    pub fn package(&self) -> (r: Result<Bundle, ExecError>)
        ensures
            r is Ok <==> restored_text(self.code@) is Some,
            r is Ok ==> is_package_of(r->Ok_0, *self),
            r is Err ==> r->Err_0 == ExecError::DecodeFailure,
    {
        let content = match alter_code(self) {
            Ok(content) => content,
            Err(e) => {
                return Err(e);
            },
        };
        let mut file_name = self.name.clone();
        file_name.append(".");
        file_name.append(self.language.get_extension());
        Ok(Bundle { file_name, content })
    }
}

} // verus!
