use vstd::prelude::*;

use crate::error::VulkanError;

verus! {

/// Size of the fixed name buffer in which the platform reports a layer.
pub const LAYER_NAME_SIZE: usize = 256;

/// One layer installed on the host, as the platform reports it: its name,
/// null-terminated, in a fixed-size buffer.
#[derive(Debug, Clone, Copy)]
pub struct LayerProperties {
    pub layer_name: [u8; LAYER_NAME_SIZE],
}

/// `buf` holds `name`: the name's bytes, none of them zero, then a zero.
/// A name that does not fit before the end of the buffer is never held.
pub open spec fn buffer_holds_name(buf: Seq<u8>, name: Seq<u8>) -> bool {
    &&& name.len() < buf.len()
    &&& buf[name.len() as int] == 0
    &&& forall|j: int| 0 <= j < name.len() ==> name[j] != 0 && #[trigger] buf[j] == name[j]
}

/// The bytes by which a requested layer name is compared.
pub open spec fn name_bytes(name: String) -> Seq<u8> {
    vstd::utf8::encode_utf8(name@)
}

/// The names of the layers installed on the host.
pub open spec fn available_layer_set(available: Seq<LayerProperties>) -> Set<Seq<u8>> {
    Set::new(
        |name: Seq<u8>|
            exists|i: int|
                0 <= i < available.len() && buffer_holds_name(
                    (#[trigger] available[i]).layer_name@,
                    name,
                ),
    )
}

/// The names of the requested layers.
pub open spec fn requested_layer_set(requested: Seq<String>) -> Set<Seq<u8>> {
    Set::new(
        |name: Seq<u8>|
            exists|i: int| 0 <= i < requested.len() && name_bytes(#[trigger] requested[i]) == name,
    )
}

/// A buffer holds at most one name: the bytes before its first zero.
proof fn lemma_buffer_name_unique(buf: Seq<u8>, a: Seq<u8>, b: Seq<u8>)
    requires
        buffer_holds_name(buf, a),
        buffer_holds_name(buf, b),
    ensures
        a == b,
{
    if a.len() < b.len() {
        assert(b[a.len() as int] != 0);
        assert(buf[a.len() as int] == b[a.len() as int]);
    } else if b.len() < a.len() {
        assert(a[b.len() as int] != 0);
        assert(buf[b.len() as int] == a[b.len() as int]);
    }
    assert forall|j: int| 0 <= j < a.len() implies a[j] == b[j] by {
        assert(buf[j] == a[j]);
        assert(buf[j] == b[j]);
    }
    assert(a =~= b);
}

/// Reads the name out of a layer's name buffer: the bytes before the first
/// zero, or `None` when the buffer holds no zero at all, as a name cut off at
/// the buffer's end matches nothing.
pub fn layer_name_bytes(buf: &[u8; LAYER_NAME_SIZE]) -> (r: Option<Vec<u8>>)
    ensures
        r is Some <==> buf@.contains(0),
        r matches Some(name) ==> buffer_holds_name(buf@, name@),
{
    let mut name: Vec<u8> = Vec::new();
    let mut i: usize = 0;
    while i < LAYER_NAME_SIZE
        invariant
            i <= LAYER_NAME_SIZE,
            buf@.len() == LAYER_NAME_SIZE,
            name@ == buf@.take(i as int),
            forall|j: int| 0 <= j < i ==> #[trigger] buf@[j] != 0,
        decreases LAYER_NAME_SIZE - i,
    {
        let b = buf[i];
        if b == 0 {
            proof {
                assert(buf@[i as int] == 0);
            }
            return Some(name);
        }
        name.push(b);
        proof {
            assert(buf@.take(i + 1) =~= buf@.take(i as int).push(b));
        }
        i += 1;
    }
    proof {
        if buf@.contains(0) {
            let k = choose|k: int| 0 <= k < buf@.len() && buf@[k] == 0;
            assert(buf@[k] != 0);
        }
    }
    None
}

/// Byte-for-byte equality of two names.
fn same_bytes(a: &Vec<u8>, b: &Vec<u8>) -> (r: bool)
    ensures
        r == (a@ == b@),
{
    if a.len() != b.len() {
        return false;
    }
    let mut i: usize = 0;
    while i < a.len()
        invariant
            i <= a@.len() == b@.len(),
            forall|j: int| 0 <= j < i ==> a@[j] == b@[j],
        decreases a@.len() - i,
    {
        if a[i] != b[i] {
            return false;
        }
        i += 1;
    }
    proof {
        assert(a@ =~= b@);
    }
    true
}

/// Whether some installed layer has exactly the name `name`.
fn layer_installed(available: &Vec<LayerProperties>, name: &Vec<u8>) -> (r: bool)
    ensures
        r == available_layer_set(available@).contains(name@),
{
    let mut i: usize = 0;
    while i < available.len()
        invariant
            i <= available@.len(),
            forall|j: int|
                0 <= j < i ==> !buffer_holds_name(#[trigger] available@[j].layer_name@, name@),
        decreases available@.len() - i,
    {
        let found = match layer_name_bytes(&available[i].layer_name) {
            Some(reported) => {
                let same = same_bytes(&reported, name);
                proof {
                    if buffer_holds_name(available@[i as int].layer_name@, name@) {
                        lemma_buffer_name_unique(
                            available@[i as int].layer_name@,
                            reported@,
                            name@,
                        );
                    }
                }
                same
            },
            None => {
                proof {
                    if buffer_holds_name(available@[i as int].layer_name@, name@) {
                        assert(available@[i as int].layer_name@[name@.len() as int] == 0);
                    }
                }
                false
            },
        };
        if found {
            proof {
                assert(buffer_holds_name(available@[i as int].layer_name@, name@));
            }
            return true;
        }
        i += 1;
    }
    false
}

/// Checks that every requested layer is installed on the host. Fails with
/// `ValidationLayersUnavailable` when some requested name is not among the
/// names that `available` reports.
pub fn vk_check_validation_layer_support(
    validation_layers: &Vec<String>,
    available: &Vec<LayerProperties>,
) -> (r: Result<(), VulkanError>)
    ensures
        r is Ok <==> requested_layer_set(validation_layers@).subset_of(
            available_layer_set(available@),
        ),
        r is Err ==> r == Err::<(), VulkanError>(VulkanError::ValidationLayersUnavailable),
{
    let mut i: usize = 0;
    while i < validation_layers.len()
        invariant
            i <= validation_layers@.len(),
            forall|k: int|
                0 <= k < i ==> available_layer_set(available@).contains(
                    name_bytes(#[trigger] validation_layers@[k]),
                ),
        decreases validation_layers@.len() - i,
    {
        let name = validation_layers[i].as_str().as_bytes_vec();
        if !layer_installed(available, &name) {
            proof {
                assert(requested_layer_set(validation_layers@).contains(
                    name_bytes(validation_layers@[i as int]),
                ));
            }
            return Err(VulkanError::ValidationLayersUnavailable);
        }
        i += 1;
    }
    proof {
        assert forall|n: Seq<u8>|
            requested_layer_set(validation_layers@).contains(n) implies available_layer_set(
                available@,
            ).contains(n) by {
            let k = choose|k: int|
                0 <= k < validation_layers@.len() && name_bytes(validation_layers@[k]) == n;
            assert(available_layer_set(available@).contains(name_bytes(validation_layers@[k])));
        }
    }
    Ok(())
}

} // verus!
