//! What a build of an extension writes: the files that the chosen outputs consist of, with
//! their contents, in the order in which they are written.

use vstd::prelude::*;

use crate::case::{to_upper_camel_case, upper_camel};
use crate::dsl::ExtensionSpec;
use crate::java::{generate_java_code, java_code};
use crate::laws::lemma_valid_manifest_is_generatable;
use crate::model::{Manifest, ManifestModel, manifest_is_generatable, strings_view};
use crate::rust_guest::{generate_rust_code, rust_guest_code};
use crate::rust_host::{generate_rust_host_code, rust_host_code};
use crate::text::{replace_char, replace_char_in};
use crate::validate::{ManifestError, ManifestErrorModel, manifest_error, validate_manifest};

verus! {

/// What goes into an output file.
pub enum OutputContents {
    /// This text.
    Text(String),
    /// The manifest as pretty-printed ABI JSON.
    AbiJson,
}

/// A file to write: its path in segments (each joined under the one before), whether its
/// parent directory is created first, and its contents.
pub struct OutputFile {
    pub path: Vec<String>,
    pub create_parent: bool,
    pub contents: OutputContents,
}

/// Model of [`OutputContents`].
pub enum ContentsModel {
    Text(Seq<char>),
    AbiJson,
}

/// Model of an [`OutputFile`].
pub struct OutputModel {
    pub path: Seq<Seq<char>>,
    pub create_parent: bool,
    pub contents: ContentsModel,
}

impl View for OutputFile {
    type V = OutputModel;

    open spec fn view(&self) -> OutputModel {
        OutputModel {
            path: strings_view(self.path@),
            create_parent: self.create_parent,
            contents: match self.contents {
                OutputContents::Text(s) => ContentsModel::Text(s@),
                OutputContents::AbiJson => ContentsModel::AbiJson,
            },
        }
    }
}

/// Model of a list of output files.
pub open spec fn outputs_view(v: Seq<OutputFile>) -> Seq<OutputModel> {
    v.map_values(|o: OutputFile| o@)
}

/// Why a build writes nothing.
pub enum GenerateError {
    /// The manifest is refused.
    InvalidManifest(ManifestError),
    /// A Rust guest module or ABI JSON was asked for, and no output directory is known.
    MissingOutDir,
}

/// Model of a [`GenerateError`].
pub enum GenerateErrorModel {
    InvalidManifest(ManifestErrorModel),
    MissingOutDir,
}

impl View for GenerateError {
    type V = GenerateErrorModel;

    open spec fn view(&self) -> GenerateErrorModel {
        match self {
            GenerateError::InvalidManifest(e) => GenerateErrorModel::InvalidManifest(e@),
            GenerateError::MissingOutDir => GenerateErrorModel::MissingOutDir,
        }
    }
}

/// The outputs chosen for an extension.
pub struct Build {
    pub manifest: Manifest,
    /// The Rust guest module, into the build's output directory.
    pub rust_guest: bool,
    /// The ABI JSON, into the build's output directory.
    pub abi_json: bool,
    /// The ABI JSON, to this path.
    pub abi_json_to: Option<String>,
    /// The Java host adapter, under this directory, in this package.
    pub java_host: Option<(String, String)>,
    /// The Rust host adapter, into this directory.
    pub rust_host: Option<String>,
}

impl Build {
    /// A build of this extension that writes nothing yet.
    pub fn new(extension: ExtensionSpec) -> (r: Self)
        ensures
            r.manifest@ == extension@,
            !r.rust_guest,
            !r.abi_json,
            r.abi_json_to is None,
            r.java_host is None,
            r.rust_host is None,
    {
        Build {
            manifest: extension.into_manifest(),
            rust_guest: false,
            abi_json: false,
            abi_json_to: None,
            java_host: None,
            rust_host: None,
        }
    }

    /// Also writes the Rust guest module.
    pub fn emit_rust_guest(self) -> (r: Self)
        ensures
            r == (Build { rust_guest: true, ..self }),
    {
        let mut b = self;
        b.rust_guest = true;
        b
    }

    /// Also writes the ABI JSON into the output directory.
    pub fn emit_abi_json(self) -> (r: Self)
        ensures
            r == (Build { abi_json: true, ..self }),
    {
        let mut b = self;
        b.abi_json = true;
        b
    }

    /// The standard outputs of an extension crate's build: the Rust guest module and the ABI
    /// JSON.
    pub fn emit(self) -> (r: Self)
        ensures
            r == (Build { rust_guest: true, abi_json: true, ..self }),
    {
        self.emit_rust_guest().emit_abi_json()
    }

    /// Also writes the ABI JSON to this path.
    pub fn emit_abi_json_to(self, path: &str) -> (r: Self)
        ensures
            r.abi_json_to matches Some(p) && p@ == path@,
            r == (Build { abi_json_to: r.abi_json_to, ..self }),
    {
        let mut b = self;
        b.abi_json_to = Some(path.to_owned());
        b
    }

    /// Also writes the Java host adapter under `out_dir`, in `package`.
    pub fn emit_java_host(self, out_dir: &str, package: &str) -> (r: Self)
        ensures
            r.java_host matches Some((d, p)) && d@ == out_dir@ && p@ == package@,
            r == (Build { java_host: r.java_host, ..self }),
    {
        let mut b = self;
        b.java_host = Some((out_dir.to_owned(), package.to_owned()));
        b
    }

    /// Also writes the Rust host adapter into `out_dir`.
    pub fn emit_rust_host(self, out_dir: &str) -> (r: Self)
        ensures
            r.rust_host matches Some(d) && d@ == out_dir@,
            r == (Build { rust_host: r.rust_host, ..self }),
    {
        let mut b = self;
        b.rust_host = Some(out_dir.to_owned());
        b
    }
}

/// The file of the Rust guest module.
pub open spec fn rust_guest_output(m: ManifestModel, out_dir: Seq<char>) -> OutputModel {
    OutputModel {
        path: seq![out_dir, "ext_"@ + m.extension.name + ".rs"@],
        create_parent: false,
        contents: ContentsModel::Text(rust_guest_code(m)),
    }
}

/// The file of the ABI JSON in the output directory.
pub open spec fn abi_json_output(m: ManifestModel, out_dir: Seq<char>) -> OutputModel {
    OutputModel {
        path: seq![out_dir, m.extension.name + ".abi.json"@],
        create_parent: true,
        contents: ContentsModel::AbiJson,
    }
}

/// The file of the ABI JSON at a given path.
pub open spec fn abi_json_to_output(path: Seq<char>) -> OutputModel {
    OutputModel { path: seq![path], create_parent: true, contents: ContentsModel::AbiJson }
}

/// The file of the Java host adapter: in the package's directory under `out_dir`, named after
/// its class.
pub open spec fn java_host_output(m: ManifestModel, out_dir: Seq<char>, package: Seq<char>) -> OutputModel {
    OutputModel {
        path: seq![
            out_dir,
            replace_char(package, '.', '/'),
            upper_camel(m.extension.name) + "HostFunctions.java"@,
        ],
        create_parent: true,
        contents: ContentsModel::Text(java_code(m, package)),
    }
}

/// The file of the Rust host adapter.
pub open spec fn rust_host_output(m: ManifestModel, out_dir: Seq<char>) -> OutputModel {
    OutputModel {
        path: seq![out_dir, "host_"@ + m.extension.name + ".rs"@],
        create_parent: true,
        contents: ContentsModel::Text(rust_host_code(m)),
    }
}

/// The files of a build, in the order in which they are written.
pub open spec fn planned_outputs(b: Build, out_dir: Option<Seq<char>>) -> Seq<OutputModel> {
    let m = b.manifest@;
    let dir = match out_dir {
        Some(d) => d,
        None => ""@,
    };
    (if b.rust_guest {
        seq![rust_guest_output(m, dir)]
    } else {
        Seq::empty()
    }) + (if b.abi_json {
        seq![abi_json_output(m, dir)]
    } else {
        Seq::empty()
    }) + (match b.abi_json_to {
        Some(p) => seq![abi_json_to_output(p@)],
        None => Seq::empty(),
    }) + (match b.java_host {
        Some((d, p)) => seq![java_host_output(m, d@, p@)],
        None => Seq::empty(),
    }) + (match b.rust_host {
        Some(d) => seq![rust_host_output(m, d@)],
        None => Seq::empty(),
    })
}

/// What a build does: refuse an invalid manifest; refuse when the Rust guest module or the
/// ABI JSON is asked for and there is no output directory; else write the planned files.
pub open spec fn build_result(b: Build, out_dir: Option<Seq<char>>) -> Result<
    Seq<OutputModel>,
    GenerateErrorModel,
> {
    match manifest_error(b.manifest@) {
        Some(e) => Err(GenerateErrorModel::InvalidManifest(e)),
        None => if (b.rust_guest || b.abi_json) && out_dir is None {
            Err(GenerateErrorModel::MissingOutDir)
        } else {
            Ok(planned_outputs(b, out_dir))
        },
    }
}

fn joined2(a: &str, b: &str) -> (r: String)
    ensures
        r@ == a@ + b@,
{
    let mut s = a.to_owned();
    s.append(b);
    s
}

fn joined3(a: &str, b: &str, c: &str) -> (r: String)
    ensures
        r@ == a@ + b@ + c@,
{
    let mut s = a.to_owned();
    s.append(b);
    s.append(c);
    s
}

fn push_output(v: &mut Vec<OutputFile>, o: OutputFile)
    ensures
        outputs_view(final(v)@) == outputs_view(old(v)@).push(o@),
{
    v.push(o);
    assert(outputs_view(v@) =~= outputs_view(old(v)@).push(o@));
}

fn path_of(parts: Vec<String>) -> (r: Vec<String>)
    ensures
        r@ == parts@,
{
    parts
}

fn rust_guest_file(m: &Manifest, dir: &str) -> (r: OutputFile)
    requires
        manifest_is_generatable(m@),
    ensures
        r@ == rust_guest_output(m@, dir@),
{
    let path = path_of(vec![dir.to_owned(), joined3("ext_", m.extension.name.as_str(), ".rs")]);
    let o = OutputFile {
        path: path,
        create_parent: false,
        contents: OutputContents::Text(generate_rust_code(m)),
    };
    assert(o@.path =~= rust_guest_output(m@, dir@).path);
    o
}

fn abi_json_file(m: &Manifest, dir: &str) -> (r: OutputFile)
    ensures
        r@ == abi_json_output(m@, dir@),
{
    let path = path_of(vec![dir.to_owned(), joined2(m.extension.name.as_str(), ".abi.json")]);
    let o = OutputFile { path: path, create_parent: true, contents: OutputContents::AbiJson };
    assert(o@.path =~= abi_json_output(m@, dir@).path);
    o
}

fn abi_json_to_file(p: &String) -> (r: OutputFile)
    ensures
        r@ == abi_json_to_output(p@),
{
    let path = path_of(vec![p.clone()]);
    let o = OutputFile { path: path, create_parent: true, contents: OutputContents::AbiJson };
    assert(o@.path =~= abi_json_to_output(p@).path);
    o
}

fn java_host_file(m: &Manifest, d: &String, p: &String) -> (r: OutputFile)
    requires
        manifest_is_generatable(m@),
    ensures
        r@ == java_host_output(m@, d@, p@),
{
    let upper = to_upper_camel_case(m.extension.name.as_str());
    let path = path_of(
        vec![
            d.clone(),
            replace_char_in(p.as_str(), '.', '/'),
            joined2(upper.as_str(), "HostFunctions.java"),
        ],
    );
    let o = OutputFile {
        path: path,
        create_parent: true,
        contents: OutputContents::Text(generate_java_code(m, p.as_str())),
    };
    assert(o@.path =~= java_host_output(m@, d@, p@).path);
    o
}

fn rust_host_file(m: &Manifest, d: &String) -> (r: OutputFile)
    ensures
        r@ == rust_host_output(m@, d@),
{
    let path = path_of(vec![d.clone(), joined3("host_", m.extension.name.as_str(), ".rs")]);
    let o = OutputFile {
        path: path,
        create_parent: true,
        contents: OutputContents::Text(generate_rust_host_code(m)),
    };
    assert(o@.path =~= rust_host_output(m@, d@).path);
    o
}

impl Build {
    /// The files that this build writes, in order, after checking the manifest.
    /// `out_dir` is the build's output directory, where one is known.
    pub fn generate(&self, out_dir: Option<&str>) -> (r: Result<Vec<OutputFile>, GenerateError>)
        ensures
            match r {
                Ok(v) => build_result(*self, option_str_view(out_dir)) == Ok::<
                    Seq<OutputModel>,
                    GenerateErrorModel,
                >(outputs_view(v@)),
                Err(e) => build_result(*self, option_str_view(out_dir)) == Err::<
                    Seq<OutputModel>,
                    GenerateErrorModel,
                >(e@),
            },
    {
        match validate_manifest(&self.manifest) {
            Ok(()) => {},
            Err(e) => {
                return Err(GenerateError::InvalidManifest(e));
            },
        }
        proof {
            lemma_valid_manifest_is_generatable(self.manifest@);
        }
        if (self.rust_guest || self.abi_json) && out_dir.is_none() {
            return Err(GenerateError::MissingOutDir);
        }
        let v = self.planned_files(out_dir);
        Ok(v)
    }

    #[verifier::rlimit(40)]
    fn planned_files(&self, out_dir: Option<&str>) -> (r: Vec<OutputFile>)
        requires
            manifest_is_generatable(self.manifest@),
        ensures
            outputs_view(r@) == planned_outputs(*self, option_str_view(out_dir)),
    {
        let m = &self.manifest;
        let dir: &str = match out_dir {
            Some(d) => d,
            None => "",
        };
        let ghost od = option_str_view(out_dir);
        let ghost dir_view = match od {
            Some(d) => d,
            None => ""@,
        };
        assert(dir@ == dir_view);
        let mut v: Vec<OutputFile> = Vec::new();
        if self.rust_guest {
            push_output(&mut v, rust_guest_file(m, dir));
        }
        if self.abi_json {
            push_output(&mut v, abi_json_file(m, dir));
        }
        match &self.abi_json_to {
            Some(p) => push_output(&mut v, abi_json_to_file(p)),
            None => {},
        }
        match &self.java_host {
            Some((d, p)) => push_output(&mut v, java_host_file(m, d, p)),
            None => {},
        }
        match &self.rust_host {
            Some(d) => push_output(&mut v, rust_host_file(m, d)),
            None => {},
        }
        assert(outputs_view(v@) =~= planned_outputs(*self, od));
        v
    }
}

/// Model of an optional text.
pub open spec fn option_str_view(o: Option<&str>) -> Option<Seq<char>> {
    match o {
        Some(s) => Some(s@),
        None => None,
    }
}


/// Only the Rust guest module and the ABI JSON beside it need the output directory: a build
/// of an accepted manifest that asks for neither succeeds whatever `out_dir` is, with the
/// same files with and without one; and the build is refused for a missing output directory
/// exactly when the manifest is accepted and one of those two is asked for without it.
pub proof fn lemma_out_dir_needed_only_for_guest_and_abi(b: Build, out_dir: Option<Seq<char>>)
    ensures
        manifest_error(b.manifest@) is None && !b.rust_guest && !b.abi_json ==> build_result(
            b,
            out_dir,
        ) is Ok && build_result(b, out_dir) == build_result(b, None),
        (build_result(b, out_dir) == Err::<Seq<OutputModel>, GenerateErrorModel>(
            GenerateErrorModel::MissingOutDir,
        )) <==> (manifest_error(b.manifest@) is None && (b.rust_guest || b.abi_json)
            && out_dir is None),
{
}

/// A build of an accepted manifest that asks only for the Rust host adapter writes exactly
/// that adapter into its directory, with or without an output directory.
pub proof fn lemma_rust_host_only_build(b: Build, out_dir: Option<Seq<char>>, d: String)
    requires
        manifest_error(b.manifest@) is None,
        !b.rust_guest,
        !b.abi_json,
        b.abi_json_to is None,
        b.java_host is None,
        b.rust_host == Some(d),
    ensures
        build_result(b, out_dir) == Ok::<Seq<OutputModel>, GenerateErrorModel>(
            seq![rust_host_output(b.manifest@, d@)],
        ),
{
    assert(planned_outputs(b, out_dir) =~= seq![rust_host_output(b.manifest@, d@)]);
}

} // verus!
