//! The plugin invocation contract: the trait a helper implements, the guard
//! on how the process was launched, the context one generation run hands to
//! the helper, and the driver that strings guard, decoding, context
//! construction and the helper's single generation call together.
//!
//! The process shell around this crate captures the argument list and reads
//! standard input to its end, in that order, and otherwise only forwards
//! values: the guard runs before any input is read.

use vstd::prelude::*;

use crate::codegen::LibraryCrate;
use crate::json::Json;
use crate::json::parse_json_doc;
use crate::payload::DecodeError;
use crate::payload::GlueGunDestinationCrate;
use crate::payload::decode_payload;
use crate::payload::payload_result;

verus! {

#[verifier::external_type_specification]
#[verifier::external_body]
pub struct ExAnyhowError(anyhow::Error);

/// Why one generation run failed. Exactly one of these reaches the process
/// boundary; none is recovered from within the run.
pub enum RunError {
    /// The process was not launched with the expected marker argument.
    InvocationError,
    /// Standard input did not carry one well-formed payload.
    PayloadDecodeError(DecodeError),
    /// The helper's own generation logic failed; carried through unchanged.
    GenerationError(anyhow::Error),
}

/// Trait implemented by glue-code helper applications, one per target
/// language. The process shell's entry point drives an implementation of
/// this trait through exactly one generation run.
pub trait GlueGunHelper {
    /// The name users give to select this helper, e.g. `"java"`.
    fn name(&self) -> String;

    /// Generates the destination crate described by `cx`. Called exactly once
    /// per run; its outcome becomes the run's outcome.
    fn generate(self, cx: &mut GenerateCx) -> Result<(), anyhow::Error> where Self: Sized;
}

/// The argument list of a supported invocation: its first element is the
/// marker the orchestrator passes.
pub open spec fn invocation_ok(args: Seq<String>) -> bool {
    args.len() >= 1 && args[0]@ == "gg"@
}

/// Gates a run on how the process was launched: accepts exactly the argument
/// lists whose first element is the marker, and rejects any other invocation
/// before any input is looked at.
pub fn check_invocation(args: &Vec<String>) -> (r: Result<(), RunError>)
    ensures
        r is Ok <==> invocation_ok(args@),
        r is Err ==> r->Err_0 is InvocationError,
{
    if args.len() == 0 {
        return Err(RunError::InvocationError);
    }
    let marker = String::from_str("gg");
    if args[0] == marker {
        Ok(())
    } else {
        Err(RunError::InvocationError)
    }
}

/// Context for one generation run: owns the decoded interface description and
/// the destination-crate descriptor, and mints crate builders from the
/// latter. Exactly one exists per run.
pub struct GenerateCx {
    idl: Json,
    dest_crate: GlueGunDestinationCrate,
}

impl GenerateCx {
    /// The interface description this run generates from.
    pub closed spec fn spec_idl(&self) -> Json {
        self.idl
    }

    /// The destination-crate descriptor this run writes to.
    pub closed spec fn spec_dest_crate(&self) -> GlueGunDestinationCrate {
        self.dest_crate
    }

    /// Builds the context for one run from the two decoded payload values.
    pub fn new(idl: Json, dest_crate: GlueGunDestinationCrate) -> (r: GenerateCx)
        ensures
            r.spec_idl() == idl,
            r.spec_dest_crate() == dest_crate,
    {
        GenerateCx { idl, dest_crate }
    }

    /// The IDL from the source crate.
    pub fn idl(&self) -> (r: &Json)
        ensures
            *r == self.spec_idl(),
    {
        &self.idl
    }

    /// Information about the destination crate.
    pub fn dest_crate(&self) -> (r: &GlueGunDestinationCrate)
        ensures
            *r == self.spec_dest_crate(),
    {
        &self.dest_crate
    }

    /// Mints a fresh, independently owned [`LibraryCrate`] builder from the
    /// destination descriptor. The context itself is left untouched and keeps
    /// no handle on the builder, so repeated calls yield builders that cannot
    /// affect one another.
    pub fn create_library_crate(&mut self) -> (r: LibraryCrate)
        ensures
            *final(self) == *old(self),
            r.spec_path() == old(self).spec_dest_crate().path,
            r.spec_crate_name() == old(self).spec_dest_crate().crate_name,
    {
        LibraryCrate::from_args(&self.dest_crate)
    }
}

/// Runs the part of one generation run that follows the invocation guard and
/// the read of standard input: decodes the payload, builds the context, and
/// invokes the helper's generation operation exactly once. Every decode
/// failure comes back as `PayloadDecodeError`, pinned to the input bytes; on
/// a well-formed payload the outcome is the helper's own, a generation
/// failure carried through unchanged.
pub fn generate_with<H: GlueGunHelper>(helper: H, input: &Vec<u8>) -> (r: Result<(), RunError>)
    ensures
        match parse_json_doc(input@) {
            Option::Some(doc) => match payload_result(doc) {
                Ok(_) => r is Ok || (r is Err && r->Err_0 is GenerationError),
                Err(e) => r == Err::<(), RunError>(RunError::PayloadDecodeError(e)),
            },
            Option::None => r is Err && r->Err_0 is PayloadDecodeError
                && r->Err_0->PayloadDecodeError_0 is Syntax,
        },
{
    let (idl, dest_crate) = match decode_payload(input) {
        Ok(p) => p,
        Err(e) => {
            return Err(RunError::PayloadDecodeError(e));
        },
    };
    let mut cx = GenerateCx::new(idl, dest_crate);
    match helper.generate(&mut cx) {
        Ok(()) => Ok(()),
        Err(e) => Err(RunError::GenerationError(e)),
    }
}

} // verus!
