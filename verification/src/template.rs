//! The program that one call hands to the interpreter.
//!
//! The program changes into the backend directory, puts that directory on the
//! module search path, makes the backend's API object, reads the arguments from
//! a literal, calls the method and prints what it returns as one line of JSON.
//! The method is called with the arguments as keywords, or without any
//! argument where there are none.
//!
//! The program holds three literals with text of the caller: the backend
//! directory, twice, and the JSON text of the arguments. Each is escaped, so
//! that the interpreter reads it back unchanged and nothing of it is taken for
//! program text. The method is no text of the caller: it comes from the table
//! of operations.

use crate::commands::{CallRequest, Operation};
use crate::error::BridgeError;
use crate::escape::{
    escape_text, escaped, lemma_escaped_reads_back, literal_length, literal_text, quoted_with,
};
use crate::json::{json_text, object_members, object_text, JsonModel};
use vstd::prelude::*;

verus! {

/// The program up to the literal that names the working directory.
pub open spec fn directory_prefix() -> Seq<char> {
    "\nimport sys\nimport json\nimport os\nos.chdir('"@
}

/// The program up to the literal that names the search path entry.
pub open spec fn search_path_prefix(backend_dir: Seq<char>) -> Seq<char> {
    directory_prefix() + escaped(backend_dir) + "')\nsys.path.insert(0, '"@
}

/// The program up to the literal that holds the arguments.
pub open spec fn arguments_prefix(backend_dir: Seq<char>) -> Seq<char> {
    search_path_prefix(backend_dir) + escaped(backend_dir)
        + "')\nfrom main import BankAnalyzerAPI\n\napi = BankAnalyzerAPI()\nargs = json.loads('"@
}

/// The program behind the literal that holds the arguments, from its closing
/// quote on.
pub open spec fn arguments_suffix(method: Seq<char>) -> Seq<char> {
    "')\nresult = api."@ + method + "(**args) if args else api."@ + method
        + "()\nprint(json.dumps(result))\n"@
}

/// The program that calls `method` of the backend in `backend_dir` with the
/// arguments whose JSON text is `arguments_json`.
pub open spec fn source_text(
    backend_dir: Seq<char>,
    method: Seq<char>,
    arguments_json: Seq<char>,
) -> Seq<char> {
    arguments_prefix(backend_dir) + escaped(arguments_json) + arguments_suffix(method)
}

/// The directory that the program `source` changes into, as the interpreter
/// reads it.
pub open spec fn working_directory(source: Seq<char>) -> Option<Seq<char>> {
    literal_text(source.skip(directory_prefix().len() as int))
}

/// The directory that the program `source` puts on the module search path,
/// as the interpreter reads it.
pub open spec fn search_path_entry(backend_dir: Seq<char>, source: Seq<char>) -> Option<Seq<char>> {
    literal_text(source.skip(search_path_prefix(backend_dir).len() as int))
}

/// The JSON text that the program `source` decodes its arguments from, as
/// the interpreter reads it.
pub open spec fn embedded_arguments(backend_dir: Seq<char>, source: Seq<char>) -> Option<Seq<char>> {
    literal_text(source.skip(arguments_prefix(backend_dir).len() as int))
}

/// Whether the program `source` reads its three literals back as the texts
/// they were written from.
pub open spec fn reads_back(
    backend_dir: Seq<char>,
    arguments_json: Seq<char>,
    source: Seq<char>,
) -> bool {
    &&& working_directory(source) == Some(backend_dir)
    &&& search_path_entry(backend_dir, source) == Some(backend_dir)
    &&& embedded_arguments(backend_dir, source) == Some(arguments_json)
}

/// Escaping round trip: for every backend directory, every method and every
/// JSON text, the interpreter reads the directory back from both of its
/// literals and the JSON text from the third. Each literal ends at the quote
/// that the program puts behind the escaped text, so that no text of the
/// caller stands outside a literal.
pub proof fn lemma_program_reads_back(
    backend_dir: Seq<char>,
    method: Seq<char>,
    arguments_json: Seq<char>,
)
    ensures
        reads_back(backend_dir, arguments_json, source_text(backend_dir, method, arguments_json)),
        literal_length(
            source_text(backend_dir, method, arguments_json).skip(directory_prefix().len() as int),
        ) == Some(escaped(backend_dir).len()),
        literal_length(
            source_text(backend_dir, method, arguments_json).skip(
                search_path_prefix(backend_dir).len() as int,
            ),
        ) == Some(escaped(backend_dir).len()),
        literal_length(
            source_text(backend_dir, method, arguments_json).skip(
                arguments_prefix(backend_dir).len() as int,
            ),
        ) == Some(escaped(arguments_json).len()),
{
    reveal_strlit("')\nsys.path.insert(0, '");
    reveal_strlit(
        "')\nfrom main import BankAnalyzerAPI\n\napi = BankAnalyzerAPI()\nargs = json.loads('",
    );
    reveal_strlit("')\nresult = api.");
    let source = source_text(backend_dir, method, arguments_json);
    let second = "')\nsys.path.insert(0, '"@;
    let third =
        "')\nfrom main import BankAnalyzerAPI\n\napi = BankAnalyzerAPI()\nargs = json.loads('"@;
    let suffix = arguments_suffix(method);
    let after_first = second.skip(1) + escaped(backend_dir) + third + escaped(arguments_json)
        + suffix;
    let after_second = third.skip(1) + escaped(arguments_json) + suffix;
    assert(second[0] == '\'' && third[0] == '\'' && suffix[0] == '\'');
    assert(source.skip(directory_prefix().len() as int) =~= quoted_with(backend_dir, after_first));
    assert(source.skip(search_path_prefix(backend_dir).len() as int) =~= quoted_with(
        backend_dir,
        after_second,
    ));
    assert(source.skip(arguments_prefix(backend_dir).len() as int) =~= quoted_with(
        arguments_json,
        suffix.skip(1),
    ));
    lemma_escaped_reads_back(backend_dir, after_first);
    lemma_escaped_reads_back(backend_dir, after_second);
    lemma_escaped_reads_back(arguments_json, suffix.skip(1));
}

/// The program for `operation` with the arguments whose JSON text is
/// `arguments_json`. The directory and the JSON text are escaped before they
/// are embedded, and the interpreter reads both back unchanged.
pub fn source_for(backend_dir: &str, operation: Operation, arguments_json: &str) -> (source: String)
    ensures
        source@ == source_text(backend_dir@, operation.method_text(), arguments_json@),
        reads_back(backend_dir@, arguments_json@, source@),
{
    let directory = escape_text(backend_dir);
    let fragment = escape_text(arguments_json);
    let method = operation.backend_method();
    let mut source = String::from_str("\nimport sys\nimport json\nimport os\nos.chdir('");
    source.append(directory.as_str());
    source.append("')\nsys.path.insert(0, '");
    source.append(directory.as_str());
    source.append(
        "')\nfrom main import BankAnalyzerAPI\n\napi = BankAnalyzerAPI()\nargs = json.loads('",
    );
    source.append(fragment.as_str());
    source.append("')\nresult = api.");
    source.append(method);
    source.append("(**args) if args else api.");
    source.append(method);
    source.append("()\nprint(json.dumps(result))\n");
    proof {
        assert(source@ =~= source_text(backend_dir@, operation.method_text(), arguments_json@));
        lemma_program_reads_back(backend_dir@, operation.method_text(), arguments_json@);
    }
    source
}

/// The program for `operation`, from what writing its arguments as JSON gave:
/// the program for that text, or a serialization error with the complaint
/// where there is no text.
pub fn source_from(backend_dir: &str, operation: Operation, written: Result<String, String>) -> (source:
    Result<String, BridgeError>)
    ensures
        match written {
            Ok(arguments_json) => {
                &&& source matches Ok(text)
                &&& text@ == source_text(
                    backend_dir@,
                    operation.method_text(),
                    arguments_json@,
                )
                &&& reads_back(backend_dir@, arguments_json@, text@)
            },
            Err(complaint) => source matches Err(BridgeError::Serialization(kept)) && kept
                == complaint,
        },
{
    match written {
        Ok(arguments_json) => Ok(source_for(backend_dir, operation, arguments_json.as_str())),
        Err(complaint) => Err(BridgeError::Serialization(complaint)),
    }
}

/// The JSON text of the arguments of `request`.
pub open spec fn arguments_text(request: CallRequest) -> Seq<char> {
    json_text(JsonModel::Object(object_members(request.arguments)))
}

/// The program for `request`. Its arguments are written as JSON, which always
/// succeeds for a request, and embedded; the interpreter reads them back
/// unchanged. A request without arguments embeds an empty object.
pub fn call_source(backend_dir: &str, request: &CallRequest) -> (source: Result<
    String,
    BridgeError,
>)
    ensures
        source matches Ok(text) && {
            &&& text@ == source_text(
                backend_dir@,
                request.operation.method_text(),
                arguments_text(*request),
            )
            &&& reads_back(backend_dir@, arguments_text(*request), text@)
            &&& object_members(request.arguments) =~= Map::empty() ==> arguments_text(*request)
                == "{}"@
        },
{
    let written = object_text(&request.arguments);
    source_from(backend_dir, request.operation, written)
}

} // verus!
