use vstd::prelude::*;

verus! {

/// Whether a render-graph node's compute pipeline can be used yet.
#[derive(Clone, Copy, Debug, PartialEq, Eq)]
pub enum NodeState {
    Loading,
    Ready,
}

/// What the pipeline cache reports for a node's compute pipeline.
#[derive(Clone, Copy, Debug, PartialEq, Eq)]
pub enum PipelineStatus {
    /// Queued or still being created.
    Pending,
    /// Compiled and usable.
    Compiled,
    /// Waiting for the shader asset to load.
    ShaderNotLoaded,
    /// Failed for any other reason.
    Failed,
}

/// The node state after one update.
pub open spec fn node_update_spec(state: NodeState, status: PipelineStatus) -> NodeState {
    match state {
        NodeState::Loading => if status == PipelineStatus::Compiled { NodeState::Ready } else { NodeState::Loading },
        NodeState::Ready => NodeState::Ready,
    }
}

/// Advances a loading node once its pipeline has compiled. A pipeline that
/// failed other than by a missing shader is fatal while loading, so that
/// input is excluded here and the caller stops instead.
pub fn node_update(state: NodeState, status: PipelineStatus) -> (r: NodeState)
    requires
        !(state == NodeState::Loading && status == PipelineStatus::Failed),
    ensures
        r == node_update_spec(state, status),
        state == NodeState::Ready ==> r == NodeState::Ready,
        state == NodeState::Loading ==> (r == NodeState::Ready <==> status == PipelineStatus::Compiled),
{
    match state {
        NodeState::Loading => match status {
            PipelineStatus::Compiled => NodeState::Ready,
            _ => NodeState::Loading,
        },
        NodeState::Ready => NodeState::Ready,
    }
}

/// Whether a node dispatches work this frame: only once it is ready.
pub fn node_runs(state: NodeState) -> (r: bool)
    ensures
        r == (state == NodeState::Ready),
{
    match state {
        NodeState::Loading => false,
        NodeState::Ready => true,
    }
}

/// A ready node stays ready, whatever the pipeline cache reports later; a
/// loading node becomes ready exactly when its pipeline has compiled.
pub proof fn lemma_ready_is_final(status: PipelineStatus)
    ensures
        node_update_spec(NodeState::Ready, status) == NodeState::Ready,
        (node_update_spec(NodeState::Loading, status) == NodeState::Ready) <==> (status == PipelineStatus::Compiled),
{
}

/// Largest number of scene objects the shader's uniform holds.
pub const MAX_OBJECTS: usize = 16;

/// Copies the first (at most 16) items into the uniform's slots and returns
/// how many were copied; slots past that count keep their former contents.
pub fn pack_object_slots<T: Copy>(slots: &mut [T; 16], items: &[T]) -> (count: i32)
    ensures
        count as int == if items@.len() < 16 { items@.len() as int } else { 16 },
        forall|i: int| 0 <= i < count ==> final(slots)@[i] == items@[i],
        forall|i: int| count <= i < 16 ==> final(slots)@[i] == old(slots)@[i],
{
    let n: usize = if items.len() < MAX_OBJECTS { items.len() } else { MAX_OBJECTS };
    let mut i: usize = 0;
    while i < n
        invariant
            n <= 16,
            n <= items@.len(),
            0 <= i <= n,
            n == if items@.len() < 16 { items@.len() as int } else { 16 },
            forall|j: int| 0 <= j < i ==> slots@[j] == items@[j],
            forall|j: int| i <= j < 16 ==> slots@[j] == old(slots)@[j],
        decreases n - i,
    {
        slots[i] = items[i];
        i = i + 1;
    }
    n as i32
}

/// The four bytes of `w` in memory: least significant first when `little`,
/// most significant first otherwise.
pub open spec fn word_bytes(w: u32, little: bool) -> Seq<u8> {
    let le = seq![
        (w % 256) as u8,
        ((w / 256) % 256) as u8,
        ((w / 65536) % 256) as u8,
        (w / 16777216) as u8,
    ];
    if little {
        le
    } else {
        le.reverse()
    }
}

/// The bytes of the words `ws` laid out one after another in memory.
pub open spec fn words_bytes(ws: Seq<u32>, little: bool) -> Seq<u8>
    decreases ws.len(),
{
    if ws.len() == 0 {
        Seq::empty()
    } else {
        word_bytes(ws[0], little).add(words_bytes(ws.drop_first(), little))
    }
}

/// Reinterprets four words as their sixteen bytes in memory, by
/// `bytemuck::cast`. The claim: the result is the words' bytes one word after
/// another, in the machine's byte order, which is either little- or big-endian.
#[verifier::external_body]
fn words_to_bytes(words: [u32; 4]) -> (r: [u8; 16])
    ensures
        r@ == words_bytes(words@, true) || r@ == words_bytes(words@, false),
{
    bytemuck::cast::<[u32; 4], [u8; 16]>(words)
}

/// The accumulation shader's blend parameters as uniform-buffer bytes: the
/// frame count in the first word, then three zero words of padding.
pub fn encode_blend_params(frame_count: u32) -> (r: [u8; 16])
    ensures
        r@.subrange(0, 4) == word_bytes(frame_count, true) || r@.subrange(0, 4) == word_bytes(frame_count, false),
        forall|k: int| 4 <= k < 16 ==> r@[k] == 0,
        r@[0] + 256 * r@[1] + 65536 * r@[2] + 16777216 * r@[3] == frame_count || r@[3] + 256 * r@[2] + 65536
            * r@[1] + 16777216 * r@[0] == frame_count,
{
    let words: [u32; 4] = [frame_count, 0, 0, 0];
    let r: [u8; 16] = words_to_bytes(words);
    proof {
        let ws = words@;
        assert(ws.drop_first().drop_first().drop_first().drop_first() =~= Seq::<u32>::empty());
        reveal_with_fuel(words_bytes, 5);
        assert(r@ =~= words_bytes(ws, true) || r@ =~= words_bytes(ws, false));
        if r@ == words_bytes(ws, true) {
            assert(r@.subrange(0, 4) =~= word_bytes(frame_count, true));
        } else {
            assert(r@.subrange(0, 4) =~= word_bytes(frame_count, false));
        }
        lemma_word_bytes_value(frame_count);
    }
    r
}

/// The four bytes of a word, read with weights 1, 256, 65536, 16777216 in
/// their byte order, give back the word.
pub proof fn lemma_word_bytes_value(w: u32)
    ensures
        ({
            let le = word_bytes(w, true);
            le[0] + 256 * le[1] + 65536 * le[2] + 16777216 * le[3] == w
        }),
        ({
            let be = word_bytes(w, false);
            be[3] + 256 * be[2] + 65536 * be[1] + 16777216 * be[0] == w
        }),
{
    assert(w == (w % 256) + 256 * ((w / 256) % 256) + 65536 * ((w / 65536) % 256) + 16777216 * (w / 16777216))
        by (nonlinear_arith);
    let le = word_bytes(w, true);
    assert(le[3] == w / 16777216);
    assert(word_bytes(w, false) =~= le.reverse());
}

/// Distinct frame counts give distinct bytes in a given byte order, so the
/// shader reads back the frame count that was written.
pub proof fn lemma_word_bytes_injective(a: u32, b: u32, little: bool)
    requires
        word_bytes(a, little) == word_bytes(b, little),
    ensures
        a == b,
{
    let la = word_bytes(a, true);
    let lb = word_bytes(b, true);
    if !little {
        assert(la =~= word_bytes(a, false).reverse());
        assert(lb =~= word_bytes(b, false).reverse());
    }
    assert(la[0] == lb[0] && la[1] == lb[1] && la[2] == lb[2] && la[3] == lb[3]);
    assert(a == (a % 256) + 256 * ((a / 256) % 256) + 65536 * ((a / 65536) % 256) + 16777216 * (a / 16777216)) by (nonlinear_arith);
    assert(b == (b % 256) + 256 * ((b / 256) % 256) + 65536 * ((b / 65536) % 256) + 16777216 * (b / 16777216)) by (nonlinear_arith);
}

} // verus!
