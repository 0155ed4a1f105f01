//! The C++ linkage guard around the declarations of a header.
use vstd::prelude::*;
use vstd::string::*;
use crate::errors::Error;

verus! {

/// Appends the opening of an `extern "C"` block for C++ compilers.
pub fn generate_extern_guard_top(header: &mut String) -> (r: Result<(), Error>)
    ensures
        r is Ok,
        final(header)@ == old(header)@ + "#ifdef __cplusplus\nextern \"C\" {\n#endif\n"@,
{
    header.append("#ifdef __cplusplus\nextern \"C\" {\n#endif\n");
    Ok(())
}

/// Appends the closing of an `extern "C"` block for C++ compilers.
pub fn generate_extern_guard_bottom(header: &mut String) -> (r: Result<(), Error>)
    ensures
        r is Ok,
        final(header)@ == old(header)@ + "#ifdef __cplusplus\n}\n#endif\n"@,
{
    header.append("#ifdef __cplusplus\n}\n#endif\n");
    Ok(())
}

} // verus!
