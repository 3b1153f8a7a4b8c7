//! A contract as the registry describes it, and the verification request
//! that is made of it.

use crate::json::{
    as_string, json_as_str, json_member, json_object, json_parsed, json_string, json_text, member,
    members_view, object_value, parse, sole_member, string_value, to_text,
};
use crate::text::{eq_ignoring_case, same_ignoring_case};
use vstd::prelude::*;
use vstd::string::*;

verus! {

/// The compiler that a contract was built with.
#[derive(Debug, Clone)]
pub struct CompilerInfo {
    pub version: String,
}

/// A source file's content.
#[derive(Debug, Clone)]
pub struct Source {
    pub content: String,
}

/// A source file under its path.
#[derive(Debug, Clone)]
pub struct SourceFile {
    pub path: String,
    pub source: Source,
}

/// An auxiliary file under its name.
#[derive(Debug, Clone)]
pub struct AuxFile {
    pub name: String,
    pub content: String,
}

/// What the registry knows of one contract. The sources and the auxiliary
/// files are kept in the order in which the registry's mapping lists them.
#[derive(Debug)]
pub struct ContractInfo {
    pub compiler: CompilerInfo,
    pub language: String,
    pub sources: Vec<SourceFile>,
    /// The compiler settings, passed on as they came.
    pub settings: serde_json::Value,
    pub files: Vec<AuxFile>,
}

/// Which bytecode a request carries.
#[derive(Debug, Clone, Copy, PartialEq, Eq, Structural)]
pub enum BytecodeType {
    /// The code that runs at deployment.
    Creation,
    /// The code that the deployment leaves on the chain.
    Runtime,
}

/// A request to the verification service.
#[derive(Debug, Clone, PartialEq, Eq)]
pub struct VerificationRequest {
    pub bytecode: String,
    pub bytecode_type: BytecodeType,
    pub compiler_version: String,
    /// The compiler's input, as JSON text.
    pub input: String,
    /// The metadata document, as the registry gave it.
    pub metadata: String,
}

/// A request as the contracts speak of it.
pub struct RequestView {
    pub bytecode: Seq<char>,
    pub bytecode_type: BytecodeType,
    pub compiler_version: Seq<char>,
    pub input: Seq<char>,
    pub metadata: Seq<char>,
}

impl View for VerificationRequest {
    type V = RequestView;

    open spec fn view(&self) -> RequestView {
        RequestView {
            bytecode: self.bytecode@,
            bytecode_type: self.bytecode_type,
            compiler_version: self.compiler_version@,
            input: self.input@,
            metadata: self.metadata@,
        }
    }
}

/// A field that a contract's data must hold and does not.
#[derive(Debug, Clone, Copy, PartialEq, Eq, Structural)]
pub enum MissingField {
    /// No auxiliary file is the metadata document.
    MetadataDocument,
    /// The metadata document names no bytecode.
    Bytecode,
}

/// Why one contract could not be passed on.
#[derive(Debug, Clone, Copy, PartialEq, Eq, Structural)]
pub enum ContractError {
    /// The registry gave no successful response.
    HttpError,
    /// A document could not be read as what it should be.
    DecodeError,
    MissingField(MissingField),
    /// The compiler's input could not be written.
    EncodeError,
    /// The verification service refused the request or could not be reached.
    RpcError,
}

/// The language tag names Solidity, in whatever case.
pub open spec fn is_solidity(language: Seq<char>) -> bool {
    same_ignoring_case(language, "solidity"@)
}

/// The content of the first file of that name, if there is one.
pub open spec fn file_content(files: Seq<AuxFile>, name: Seq<char>) -> Option<Seq<char>>
    decreases files.len(),
{
    if files.len() == 0 {
        None
    } else if files[0].name@ == name {
        Some(files[0].content@)
    } else {
        file_content(files.drop_first(), name)
    }
}

/// No two files have the same name: the files are a mapping from names to
/// contents.
pub open spec fn distinct_names(files: Seq<AuxFile>) -> bool {
    forall|i: int, j: int|
        0 <= i < j < files.len() ==> (#[trigger] files[i]).name@ != (#[trigger] files[j]).name@
}

/// No two sources have the same path: the sources are a mapping from paths
/// to contents.
pub open spec fn distinct_paths(sources: Seq<SourceFile>) -> bool {
    forall|i: int, j: int|
        0 <= i < j < sources.len() ==> (#[trigger] sources[i]).path@ != (#[trigger] sources[j]).path@
}

impl ContractInfo {
    /// The description is as the registry gives it: its sources and its
    /// auxiliary files are mappings.
    pub open spec fn wf(&self) -> bool {
        distinct_paths(self.sources@) && distinct_names(self.files@)
    }

    /// Tells whether the sources and the auxiliary files are mappings.
    pub fn is_well_formed(&self) -> (r: bool)
        ensures
            r == self.wf(),
    {
        paths_are_distinct(&self.sources) && names_are_distinct(&self.files)
    }
}

/// Tells whether no two sources have the same path.
pub fn paths_are_distinct(sources: &Vec<SourceFile>) -> (r: bool)
    ensures
        r == distinct_paths(sources@),
{
    let mut j: usize = 0;
    while j < sources.len()
        invariant
            j <= sources.len(),
            forall|a: int, b: int|
                0 <= a < b < j ==> (#[trigger] sources@[a]).path@ != (#[trigger] sources@[b]).path@,
        decreases sources.len() - j,
    {
        let mut i: usize = 0;
        while i < j
            invariant
                i <= j < sources.len(),
                forall|a: int| 0 <= a < i ==> (#[trigger] sources@[a]).path@ != sources@[j as int].path@,
            decreases j - i,
        {
            if sources[i].path == sources[j].path {
                return false;
            }
            i = i + 1;
        }
        j = j + 1;
    }
    true
}

/// Tells whether no two files have the same name.
pub fn names_are_distinct(files: &Vec<AuxFile>) -> (r: bool)
    ensures
        r == distinct_names(files@),
{
    let mut j: usize = 0;
    while j < files.len()
        invariant
            j <= files.len(),
            forall|a: int, b: int|
                0 <= a < b < j ==> (#[trigger] files@[a]).name@ != (#[trigger] files@[b]).name@,
        decreases files.len() - j,
    {
        let mut i: usize = 0;
        while i < j
            invariant
                i <= j < files.len(),
                forall|a: int| 0 <= a < i ==> (#[trigger] files@[a]).name@ != files@[j as int].name@,
            decreases j - i,
        {
            if files[i].name == files[j].name {
                return false;
            }
            i = i + 1;
        }
        j = j + 1;
    }
    true
}

/// The sources as members of a JSON object: each path with its content as a
/// JSON string, and nothing else of the file.
pub open spec fn source_members(sources: Seq<SourceFile>) -> Seq<(Seq<char>, serde_json::Value)> {
    Seq::new(sources.len(), |i: int| (sources[i].path@, json_string(sources[i].source.content@)))
}

/// The compiler's input: the language, the sources and the settings.
pub open spec fn standard_json(sources: Seq<SourceFile>, settings: serde_json::Value) -> serde_json::Value {
    json_object(
        seq![
            ("language"@, json_string("Solidity"@)),
            ("sources"@, json_object(source_members(sources))),
            ("settings"@, settings),
        ],
    )
}

/// The request that is made once the metadata document is read: it needs the
/// bytecode first, then the written input.
pub open spec fn assembled(
    compiler_version: Seq<char>,
    metadata: Seq<char>,
    bytecode: Option<Seq<char>>,
    input: Option<Seq<char>>,
) -> Result<RequestView, ContractError> {
    match bytecode {
        None => Err(ContractError::MissingField(MissingField::Bytecode)),
        Some(code) => match input {
            None => Err(ContractError::EncodeError),
            Some(text) => Ok(
                (RequestView {
                    bytecode: code,
                    bytecode_type: BytecodeType::Creation,
                    compiler_version: compiler_version,
                    input: text,
                    metadata: metadata,
                }),
            ),
        },
    }
}

/// What becomes of a contract: `Ok(None)` where it is passed over, the
/// request where one is made, or the reason why none can be.
pub open spec fn submission_of(info: ContractInfo) -> Result<Option<RequestView>, ContractError> {
    if !is_solidity(info.language@) {
        Ok(None)
    } else {
        match file_content(info.files@, "metadata.json"@) {
            None => Err(ContractError::MissingField(MissingField::MetadataDocument)),
            Some(metadata) => match json_parsed(metadata) {
                None => Err(ContractError::DecodeError),
                Some(doc) => match assembled(
                    info.compiler.version@,
                    metadata,
                    json_as_str(json_member(doc, "bytecode"@)),
                    json_text(standard_json(info.sources@, info.settings)),
                ) {
                    Ok(request) => Ok(Some(request)),
                    Err(e) => Err(e),
                },
            },
        }
    }
}

/// An executable outcome says the same as one over views.
pub open spec fn same_submission(
    r: Result<Option<VerificationRequest>, ContractError>,
    v: Result<Option<RequestView>, ContractError>,
) -> bool {
    match r {
        Ok(Some(request)) => v == Ok::<Option<RequestView>, ContractError>(Some(request@)),
        Ok(None) => v == Ok::<Option<RequestView>, ContractError>(None),
        Err(e) => v == Err::<Option<RequestView>, ContractError>(e),
    }
}

/// Finds an auxiliary file by its name.
pub fn find_file<'a>(files: &'a Vec<AuxFile>, name: &str) -> (r: Option<&'a String>)
    ensures
        match r {
            Some(content) => file_content(files@, name@) == Some(content@),
            None => file_content(files@, name@) is None,
        },
{
    let wanted: String = String::from_str(name);
    let mut i: usize = 0;
    assert(files@.skip(0) =~= files@);
    while i < files.len()
        invariant
            i <= files.len(),
            wanted@ == name@,
            file_content(files@, name@) == file_content(files@.skip(i as int), name@),
        decreases files.len() - i,
    {
        proof {
            assert(files@.skip(i as int).drop_first() =~= files@.skip(i as int + 1));
            assert(files@.skip(i as int)[0] == files@[i as int]);
        }
        if files[i].name == wanted {
            return Some(&files[i].content);
        }
        i = i + 1;
    }
    None
}

fn source_values(sources: &Vec<SourceFile>) -> (r: Vec<(String, serde_json::Value)>)
    ensures
        members_view(r@) == source_members(sources@),
        forall|k: int|
            0 <= k < sources@.len() ==> json_as_str(json_string(#[trigger] sources@[k].source.content@))
                == Some(sources@[k].source.content@),
{
    let mut out: Vec<(String, serde_json::Value)> = Vec::new();
    let mut i: usize = 0;
    while i < sources.len()
        invariant
            i <= sources.len(),
            out@.len() == i,
            forall|j: int|
                0 <= j < i ==> (#[trigger] out@[j]).0@ == sources@[j].path@ && out@[j].1 == json_string(
                    sources@[j].source.content@,
                ),
            forall|k: int|
                0 <= k < i ==> json_as_str(json_string(#[trigger] sources@[k].source.content@)) == Some(
                    sources@[k].source.content@,
                ),
        decreases sources.len() - i,
    {
        let path = sources[i].path.clone();
        let content = sources[i].source.content.clone();
        out.push((path, string_value(content)));
        i = i + 1;
    }
    assert(members_view(out@) =~= source_members(sources@));
    out
}

/// Builds the compiler's input of the sources and the settings. What was
/// put in can be read out of the document: the language, the settings as
/// they were given, and, where the sources are a mapping, the content of
/// each source under its path.
pub fn standard_json_input(sources: &Vec<SourceFile>, settings: serde_json::Value) -> (r: serde_json::Value)
    ensures
        r == standard_json(sources@, settings),
        json_as_str(json_member(r, "language"@)) == Some("Solidity"@),
        json_member(r, "settings"@) == settings,
        distinct_paths(sources@) ==> forall|k: int|
            0 <= k < sources@.len() ==> json_as_str(
                json_member(json_member(r, "sources"@), (#[trigger] sources@[k]).path@),
            ) == Some(sources@[k].source.content@),
{
    let files = object_value(source_values(sources));
    proof {
        if distinct_paths(sources@) {
            assert forall|k: int| 0 <= k < sources@.len() implies json_as_str(
                json_member(files, (#[trigger] sources@[k]).path@),
            ) == Some(sources@[k].source.content@) by {
                let listed = source_members(sources@);
                assert forall|j: int| 0 <= j < listed.len() && j != k implies (#[trigger] listed[j]).0
                    != listed[k].0 by {
                    if j < k {
                        assert(sources@[j].path@ != sources@[k].path@);
                    } else {
                        assert(sources@[k].path@ != sources@[j].path@);
                    }
                }
                assert(sole_member(listed, k));
                assert(listed[k].1 == json_string(sources@[k].source.content@));
            }
        }
    }
    let mut members: Vec<(String, serde_json::Value)> = Vec::new();
    members.push((String::from_str("language"), string_value(String::from_str("Solidity"))));
    members.push((String::from_str("sources"), files));
    members.push((String::from_str("settings"), settings));
    let ghost listed = seq![
        ("language"@, json_string("Solidity"@)),
        ("sources"@, json_object(source_members(sources@))),
        ("settings"@, settings),
    ];
    assert(members_view(members@) =~= listed);
    let r = object_value(members);
    proof {
        reveal_strlit("language");
        reveal_strlit("sources");
        reveal_strlit("settings");
        assert("language"@[0] != "sources"@[0]);
        assert("language"@[0] != "settings"@[0]);
        assert("sources"@.len() != "settings"@.len());
        assert(sole_member(listed, 0));
        assert(sole_member(listed, 1));
        assert(sole_member(listed, 2));
    }
    r
}

/// Makes the request of its parts, where the bytecode was found and the
/// input was written.
pub fn assemble(
    compiler_version: String,
    metadata: String,
    bytecode: Option<String>,
    input: Option<String>,
) -> (r: Result<VerificationRequest, ContractError>)
    ensures
        match r {
            Ok(request) => (bytecode is Some && input is Some && request@ == (RequestView {
                bytecode: bytecode.unwrap()@,
                bytecode_type: BytecodeType::Creation,
                compiler_version: compiler_version@,
                input: input.unwrap()@,
                metadata: metadata@,
            })),
            Err(e) => (bytecode is None && e == ContractError::MissingField(MissingField::Bytecode))
                || (bytecode is Some && input is None && e == ContractError::EncodeError),
        },
{
    match bytecode {
        None => Err(ContractError::MissingField(MissingField::Bytecode)),
        Some(code) => match input {
            None => Err(ContractError::EncodeError),
            Some(text) => Ok(
                VerificationRequest {
                    bytecode: code,
                    bytecode_type: BytecodeType::Creation,
                    compiler_version,
                    input: text,
                    metadata,
                },
            ),
        },
    }
}

/// Decides what becomes of a contract and, where it is to be verified,
/// makes the request.
pub fn prepare_submission(info: ContractInfo) -> (r: Result<Option<VerificationRequest>, ContractError>)
    ensures
        same_submission(r, submission_of(info)),
{
    let ContractInfo { compiler, language, sources, settings, files } = info;
    if !eq_ignoring_case(language.as_str(), "solidity") {
        return Ok(None);
    }
    let metadata: String = match find_file(&files, "metadata.json") {
        None => {
            return Err(ContractError::MissingField(MissingField::MetadataDocument));
        },
        Some(content) => content.clone(),
    };
    let doc = match parse(metadata.as_str()) {
        Err(_) => {
            return Err(ContractError::DecodeError);
        },
        Ok(doc) => doc,
    };
    let bytecode = as_string(member(&doc, "bytecode"));
    let input = match to_text(&standard_json_input(&sources, settings)) {
        Ok(text) => Some(text),
        Err(_) => None,
    };
    match assemble(compiler.version, metadata, bytecode, input) {
        Ok(request) => Ok(Some(request)),
        Err(e) => Err(e),
    }
}

/// What is found under a name is the content of a file of that name, and
/// nothing is found only where no file has the name.
pub proof fn found_file_has_the_name(files: Seq<AuxFile>, name: Seq<char>)
    ensures
        match file_content(files, name) {
            Some(content) => exists|k: int|
                0 <= k < files.len() && (#[trigger] files[k]).name@ == name && files[k].content@ == content,
            None => forall|k: int| 0 <= k < files.len() ==> (#[trigger] files[k]).name@ != name,
        },
    decreases files.len(),
{
    if files.len() > 0 && files[0].name@ != name {
        let rest = files.drop_first();
        found_file_has_the_name(rest, name);
        match file_content(rest, name) {
            Some(content) => {
                let k = choose|k: int|
                    0 <= k < rest.len() && (#[trigger] rest[k]).name@ == name && rest[k].content@ == content;
                assert(files[k + 1] == rest[k]);
            },
            None => {
                assert forall|k: int| 0 <= k < files.len() implies (#[trigger] files[k]).name@ != name by {
                    if k > 0 {
                        assert(rest[k - 1] == files[k]);
                    }
                }
            },
        }
    } else if files.len() > 0 {
        assert(files[0].name@ == name);
    }
}

/// Where the files are a mapping, each file is found under its name.
pub proof fn file_is_found_by_its_name(files: Seq<AuxFile>, k: int)
    requires
        distinct_names(files),
        0 <= k < files.len(),
    ensures
        file_content(files, files[k].name@) == Some(files[k].content@),
    decreases files.len(),
{
    if k > 0 {
        let rest = files.drop_first();
        assert(files[0].name@ != files[k].name@);
        assert forall|i: int, j: int| 0 <= i < j < rest.len() implies (#[trigger] rest[i]).name@
            != (#[trigger] rest[j]).name@ by {
            assert(rest[i] == files[i + 1]);
            assert(rest[j] == files[j + 1]);
        }
        assert(rest[k - 1] == files[k]);
        file_is_found_by_its_name(rest, k - 1);
    }
}

/// The compiler's input is made of every source, in order, each under its
/// path with its content as a JSON string, and of nothing else of the
/// sources.
pub proof fn every_source_is_a_member(sources: Seq<SourceFile>, k: int)
    requires
        0 <= k < sources.len(),
    ensures
        source_members(sources).len() == sources.len(),
        source_members(sources)[k] == (sources[k].path@, json_string(sources[k].source.content@)),
{
}

/// A contract in another language than Solidity is passed over: no request,
/// and no error.
pub proof fn other_language_is_skipped(info: ContractInfo)
    requires
        !is_solidity(info.language@),
    ensures
        submission_of(info) == Ok::<Option<RequestView>, ContractError>(None),
{
}

/// A Solidity contract without a metadata document fails for that reason,
/// whatever else it holds.
pub proof fn missing_metadata_is_an_error(info: ContractInfo)
    requires
        is_solidity(info.language@),
        file_content(info.files@, "metadata.json"@) is None,
    ensures
        submission_of(info) == Err::<Option<RequestView>, ContractError>(
            ContractError::MissingField(MissingField::MetadataDocument),
        ),
{
}

} // verus!
