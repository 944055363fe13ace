//! What is asked of the binding generator.

use crate::flags::{fused_args, texts, FlagView};
use crate::probe::{metadata_of, BuildMeta, BuildMetaView, PackageView};
use vstd::prelude::*;
use vstd::string::*;

verus! {

/// The name under which the generator is given the synthetic header.
pub const WRAPPER_HEADER: &'static str = "include_lib.h";

/// The directory of the generated code, beneath the build's output directory.
pub const CODEGEN_DIR: &'static str = "codegen";

/// The file of the generated bindings, beneath the build's output directory.
pub const BINDINGS_FILE: &'static str = "codegen/dftbplus.rs";

/// One invocation of the binding generator.
#[derive(Debug, Clone)]
pub struct BindgenRequest {
    /// The name of the synthetic header.
    pub header_name: &'static str,
    /// The text of the synthetic header.
    pub header_contents: String,
    /// The arguments for clang, each one atomic.
    pub clang_args: Vec<String>,
    /// Whether the generator may trust the names that clang mangles.
    pub trust_clang_mangling: bool,
    /// The directory to create before writing, if it is not there.
    pub out_dir: &'static str,
    /// The file that receives the bindings.
    pub out_file: &'static str,
}

/// The mathematical value of a [`BindgenRequest`].
pub struct BindgenRequestView {
    pub header_name: Seq<char>,
    pub header_contents: Seq<char>,
    pub clang_args: Seq<Seq<char>>,
    pub trust_clang_mangling: bool,
    pub out_dir: Seq<char>,
    pub out_file: Seq<char>,
}

impl View for BindgenRequest {
    type V = BindgenRequestView;

    open spec fn view(&self) -> BindgenRequestView {
        BindgenRequestView {
            header_name: self.header_name@,
            header_contents: self.header_contents@,
            clang_args: texts(self.clang_args@),
            trust_clang_mangling: self.trust_clang_mangling,
            out_dir: self.out_dir@,
            out_file: self.out_file@,
        }
    }
}

/// The one line of the synthetic header: a directive that pulls in `header`
/// by the search paths, so that the preprocessor finds the true file.
pub open spec fn wrapper_source(header: Seq<char>) -> Seq<char> {
    "#include <"@ + header + ">"@
}

/// The request that build metadata gives rise to: the synthetic header, the
/// definitions and then the header search paths as atomic arguments, and no
/// trust in mangled names.
pub open spec fn request_of(meta: BuildMetaView) -> BindgenRequestView {
    BindgenRequestView {
        header_name: WRAPPER_HEADER@,
        header_contents: wrapper_source(meta.header),
        clang_args: fused_args(meta.defines) + fused_args(meta.include_dirs),
        trust_clang_mangling: false,
        out_dir: CODEGEN_DIR@,
        out_file: BINDINGS_FILE@,
    }
}

/// Prepares the generation of the bindings from what the build found out.
///
/// Older versions of libclang mangle even the names of C functions, so the
/// generator is told not to trust them.
pub fn _main_gen_bindings(meta: BuildMeta) -> (request: BindgenRequest)
    ensures
        request@ == request_of(meta@),
{
    let BuildMeta { header, include_dirs, defines } = meta;
    let header_contents = String::from_str("#include <").concat(header).concat(">");
    let mut clang_args = defines.to_args();
    let ghost define_args = clang_args@;
    let mut rest = include_dirs.to_args();
    let ghost include_args = rest@;
    clang_args.append(&mut rest);
    let request = BindgenRequest {
        header_name: WRAPPER_HEADER,
        header_contents,
        clang_args,
        trust_clang_mangling: false,
        out_dir: CODEGEN_DIR,
        out_file: BINDINGS_FILE,
    };
    proof {
        assert(texts(define_args) == fused_args(defines@));
        assert(request@.clang_args =~= fused_args(defines@) + fused_args(include_dirs@)) by {
            assert forall|k: int| 0 <= k < request.clang_args@.len() implies texts(
                request.clang_args@,
            )[k] == (fused_args(defines@) + fused_args(include_dirs@))[k] by {
                if k < define_args.len() {
                    assert(texts(define_args)[k] == define_args[k]@);
                } else {
                    let j = k - define_args.len();
                    assert(texts(include_args)[j] == include_args[j]@);
                }
            }
        }
    }
    request
}


/// Order from the package to the generator. The arguments of the request made
/// for a package are one per definition, in the package's order, and after
/// them one per header search path, in the package's order: a definition's
/// argument begins with `-D`, and a path's argument is `-I` and the path.
pub proof fn lemma_request_follows_package(package: PackageView, i: int)
    requires
        0 <= i < package.defines.len() + package.include_paths.len(),
    ensures
        ({
            let args = request_of(metadata_of(package)).clang_args;
            let d = package.defines.len() as int;
            &&& args.len() == d + package.include_paths.len()
            &&& i < d ==> args[i] == FlagView::Define(
                package.defines[i].0,
                package.defines[i].1,
            ).fused()
            &&& i < d ==> args[i].subrange(0, 2) == seq!['-', 'D']
            &&& i >= d ==> args[i] == seq!['-', 'I'] + package.include_paths[i - d]
        }),
{
    let args = request_of(metadata_of(package)).clang_args;
    let d = package.defines.len() as int;
    if i < d {
        assert(args[i].subrange(0, 2) =~= seq!['-', 'D']);
    } else {
        assert(args[i] =~= seq!['-', 'I'] + package.include_paths[i - d]);
    }
}

} // verus!
