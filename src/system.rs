use vstd::prelude::*;

verus! {

broadcast use vstd::string::to_string_from_display_ensures_for_str;

/// Status code of a successful property query.
pub const PROPERTY_OK: u32 = 0;

/// The buffer was too small for the value; on a size-only query this is how
/// the needed size is learned.
pub const PROPERTY_BUFFER_TOO_SMALL: u32 = 3;

/// A failed device-property query: the raw status code and its name.
#[derive(Debug)]
pub struct TrackedPropertyError {
    pub code: u32,
    pub name: String,
}

/// The symbolic name of a property status code; unknown codes share one.
pub open spec fn property_error_name(code: u32) -> Seq<char> {
    if code == 0 {
        "TrackedProp_Success"@
    } else if code == 1 {
        "TrackedProp_WrongDataType"@
    } else if code == 2 {
        "TrackedProp_WrongDeviceClass"@
    } else if code == 3 {
        "TrackedProp_BufferTooSmall"@
    } else if code == 4 {
        "TrackedProp_UnknownProperty"@
    } else if code == 5 {
        "TrackedProp_InvalidDevice"@
    } else if code == 6 {
        "TrackedProp_CouldNotContactServer"@
    } else if code == 7 {
        "TrackedProp_ValueNotProvidedByDevice"@
    } else if code == 8 {
        "TrackedProp_StringExceedsMaximumLength"@
    } else if code == 9 {
        "TrackedProp_NotYetAvailable"@
    } else if code == 10 {
        "TrackedProp_PermissionDenied"@
    } else {
        "TrackedProp_UnknownError"@
    }
}

/// The symbolic name of a property status code.
pub fn error_name(code: u32) -> (r: String)
    ensures
        r@ == property_error_name(code),
{
    let s: &str = match code {
        0 => "TrackedProp_Success",
        1 => "TrackedProp_WrongDataType",
        2 => "TrackedProp_WrongDeviceClass",
        3 => "TrackedProp_BufferTooSmall",
        4 => "TrackedProp_UnknownProperty",
        5 => "TrackedProp_InvalidDevice",
        6 => "TrackedProp_CouldNotContactServer",
        7 => "TrackedProp_ValueNotProvidedByDevice",
        8 => "TrackedProp_StringExceedsMaximumLength",
        9 => "TrackedProp_NotYetAvailable",
        10 => "TrackedProp_PermissionDenied",
        _ => "TrackedProp_UnknownError",
    };
    s.to_string()
}

/// Turns a property status code into a result.
pub fn check_err(code: u32) -> (r: Result<(), TrackedPropertyError>)
    ensures
        r is Ok <==> code == PROPERTY_OK,
        r matches Err(e) ==> e.code == code && e.name@ == property_error_name(code),
{
    if code == PROPERTY_OK {
        Ok(())
    } else {
        Err(TrackedPropertyError { code, name: error_name(code) })
    }
}

/// Allocates the buffer for a string property from the answer to the
/// size-only query: a zeroed buffer of the reported size, unless the query
/// failed with anything but "too small".
pub fn property_buffer(status: u32, reported_size: u32) -> (r: Result<Vec<u8>, TrackedPropertyError>)
    ensures
        r is Ok <==> (status == PROPERTY_OK || status == PROPERTY_BUFFER_TOO_SMALL),
        r matches Ok(buf) ==> buf@.len() == reported_size && forall|i: int|
            0 <= i < buf@.len() ==> #[trigger] buf@[i] == 0u8,
        r matches Err(e) ==> e.code == status && e.name@ == property_error_name(status),
{
    if status == PROPERTY_OK || status == PROPERTY_BUFFER_TOO_SMALL {
        Ok(vec![0u8; reported_size as usize])
    } else {
        match check_err(status) {
            Ok(()) => Ok(Vec::new()),
            Err(e) => Err(e),
        }
    }
}

/// The bytes of a NUL-terminated string property: all but the final
/// terminator, provided the buffer is not empty and holds no other NUL.
pub fn property_bytes(buffer: &[u8]) -> (r: Option<Vec<u8>>)
    ensures
        r is Some <==> buffer@.len() > 0 && forall|i: int|
            0 <= i < buffer@.len() - 1 ==> #[trigger] buffer@[i] != 0u8,
        r matches Some(v) ==> v@ == buffer@.drop_last(),
{
    let n: usize = buffer.len();
    if n == 0 {
        return None;
    }
    let mut out: Vec<u8> = Vec::new();
    let mut i: usize = 0;
    while i < n - 1
        invariant
            n == buffer@.len(),
            n > 0,
            i <= n - 1,
            out@ == buffer@.subrange(0, i as int),
            forall|k: int| 0 <= k < i ==> #[trigger] buffer@[k] != 0u8,
        decreases n - 1 - i,
    {
        if buffer[i] == 0 {
            return None;
        }
        out.push(buffer[i]);
        i = i + 1;
        assert(out@ =~= buffer@.subrange(0, i as int));
    }
    assert(out@ =~= buffer@.drop_last());
    Some(out)
}

} // verus!
