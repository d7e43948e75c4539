//! A model of the driver state the commands act on.
//!
//! The driver keeps, among much else, a current vertex-array binding, one
//! current buffer per buffer target, and the uploaded contents of each
//! buffer object. [`GlState`] replays a command stream against exactly that
//! state, so that what a stream of commands does to the driver can be
//! stated and proved; commands that touch no modelled state leave the model
//! unchanged.

use vstd::prelude::*;
use crate::command::{Cmd, GlCommand};
use crate::gl_types::BufferType;

verus! {

/// The mathematical image of the modelled driver state.
#[verifier::ext_equal]
pub ghost struct GlStateV {
    /// The current vertex array object (0: none).
    pub vertex_array_binding: u32,
    /// The buffer bound at the array target (0: none).
    pub array_binding: u32,
    /// The buffer bound at the element-array target (0: none).
    pub element_array_binding: u32,
    /// The uploaded contents of each buffer object.
    pub buffer_contents: Map<u32, Seq<u8>>,
}

impl GlStateV {
    /// The buffer bound at the given target (0: none).
    pub open spec fn binding(self, target: BufferType) -> u32 {
        match target {
            BufferType::Array => self.array_binding,
            BufferType::ElementArray => self.element_array_binding,
        }
    }

    /// The driver state before any command: nothing bound, nothing uploaded.
    pub open spec fn initial() -> GlStateV {
        GlStateV {
            vertex_array_binding: 0,
            array_binding: 0,
            element_array_binding: 0,
            buffer_contents: Map::empty(),
        }
    }
}

/// What one command does to the modelled driver state. An upload with no
/// buffer bound at its target is a driver error and changes nothing; the
/// commands that touch no modelled state change nothing.
pub open spec fn spec_apply(s: GlStateV, cmd: Cmd) -> GlStateV {
    match cmd {
        Cmd::BindVertexArray { handle } => GlStateV { vertex_array_binding: handle, ..s },
        Cmd::BindBuffer { target, handle } => match target {
            BufferType::Array => GlStateV { array_binding: handle, ..s },
            BufferType::ElementArray => GlStateV { element_array_binding: handle, ..s },
        },
        Cmd::BufferData { target, data, usage } => {
            let bound = s.binding(target);
            if bound == 0 {
                s
            } else {
                GlStateV { buffer_contents: s.buffer_contents.insert(bound, data), ..s }
            }
        },
        _ => s,
    }
}

/// What a whole command stream does to the modelled driver state.
pub open spec fn spec_apply_all(s: GlStateV, cmds: Seq<Cmd>) -> GlStateV
    decreases cmds.len(),
{
    if cmds.len() == 0 {
        s
    } else {
        spec_apply(spec_apply_all(s, cmds.drop_last()), cmds.last())
    }
}

/// Binding a buffer at a target and then uploading through that target
/// stores exactly the uploaded bytes as that buffer's contents — from any
/// starting state.
pub proof fn lemma_bind_then_upload_stores(
    s: GlStateV,
    handle: u32,
    target: BufferType,
    data: Seq<u8>,
    usage: u32,
)
    requires
        handle != 0,
    ensures
        ({
            let stream = seq![
                Cmd::BindBuffer { target, handle },
                Cmd::BufferData { target, data, usage },
            ];
            let uploaded = spec_apply_all(s, stream);
            &&& uploaded.buffer_contents.contains_key(handle)
            &&& uploaded.buffer_contents[handle] == data
            &&& uploaded.binding(target) == handle
        }),
{
    let bind = Cmd::BindBuffer { target, handle };
    let upload = Cmd::BufferData { target, data, usage };
    let stream = seq![bind, upload];
    assert(seq![bind].drop_last() =~= Seq::<Cmd>::empty());
    assert(spec_apply_all(s, Seq::<Cmd>::empty()) == s);
    assert(seq![bind].last() == bind);
    assert(spec_apply_all(s, seq![bind]) == spec_apply(s, bind));
    assert(stream.drop_last() =~= seq![bind]);
    assert(stream.last() == upload);
    assert(spec_apply_all(s, stream) == spec_apply(spec_apply(s, bind), upload));
}

/// Binding a buffer at a target and then binding the zero handle there
/// leaves the target with no buffer bound, and every buffer's contents
/// untouched — from any starting state.
pub proof fn lemma_bind_then_clear_unbinds(s: GlStateV, handle: u32, target: BufferType)
    ensures
        ({
            let stream = seq![
                Cmd::BindBuffer { target, handle },
                Cmd::BindBuffer { target, handle: 0u32 },
            ];
            let cleared = spec_apply_all(s, stream);
            &&& cleared.binding(target) == 0u32
            &&& cleared.buffer_contents == s.buffer_contents
        }),
{
    let bind = Cmd::BindBuffer { target, handle };
    let unbind = Cmd::BindBuffer { target, handle: 0u32 };
    let stream = seq![bind, unbind];
    assert(seq![bind].drop_last() =~= Seq::<Cmd>::empty());
    assert(spec_apply_all(s, Seq::<Cmd>::empty()) == s);
    assert(seq![bind].last() == bind);
    assert(spec_apply_all(s, seq![bind]) == spec_apply(s, bind));
    assert(stream.drop_last() =~= seq![bind]);
    assert(stream.last() == unbind);
    assert(spec_apply_all(s, stream) == spec_apply(spec_apply(s, bind), unbind));
}

/// One buffer object the model has seen an upload for.
pub struct BufferObject {
    /// The buffer's driver-side handle.
    pub handle: u32,
    /// The bytes last uploaded to it.
    pub data: Vec<u8>,
}

/// The uploaded contents that a list of buffer objects records, as a map
/// from handle to bytes.
pub open spec fn assoc_map(entries: Seq<BufferObject>) -> Map<u32, Seq<u8>>
    decreases entries.len(),
{
    if entries.len() == 0 {
        Map::empty()
    } else {
        assoc_map(entries.drop_last()).insert(entries.last().handle, entries.last().data@)
    }
}

/// An executable replay of the modelled driver state.
pub struct GlState {
    vertex_array_binding: u32,
    array_binding: u32,
    element_array_binding: u32,
    buffers: Vec<BufferObject>,
}

impl View for GlState {
    type V = GlStateV;

    closed spec fn view(&self) -> GlStateV {
        GlStateV {
            vertex_array_binding: self.vertex_array_binding,
            array_binding: self.array_binding,
            element_array_binding: self.element_array_binding,
            buffer_contents: assoc_map(self.buffers@),
        }
    }
}

impl GlState {
    /// Each handle appears at most once in the buffer list.
    pub closed spec fn wf(self) -> bool {
        forall|i: int, j: int|
            0 <= i < j < self.buffers@.len() ==> self.buffers@[i].handle != self.buffers@[j].handle
    }

    /// The state before any command.
    pub fn new() -> (s: GlState)
        ensures
            s@ == GlStateV::initial(),
            s.wf(),
    {
        let s = GlState {
            vertex_array_binding: 0,
            array_binding: 0,
            element_array_binding: 0,
            buffers: Vec::new(),
        };
        proof {
            assert(s@ =~= GlStateV::initial());
        }
        s
    }

    /// The current vertex array object (0: none).
    pub fn vertex_array_binding(&self) -> (handle: u32)
        ensures
            handle == self@.vertex_array_binding,
    {
        self.vertex_array_binding
    }

    /// The buffer bound at the given target (0: none).
    pub fn binding(&self, target: BufferType) -> (handle: u32)
        ensures
            handle == self@.binding(target),
    {
        match target {
            BufferType::Array => self.array_binding,
            BufferType::ElementArray => self.element_array_binding,
        }
    }

    /// The bytes last uploaded to the given buffer object, if any.
    pub fn buffer_contents(&self, handle: u32) -> (r: Option<&Vec<u8>>)
        requires
            self.wf(),
        ensures
            match r {
                Some(data) => self@.buffer_contents.contains_key(handle)
                    && self@.buffer_contents[handle] == data@,
                None => !self@.buffer_contents.contains_key(handle),
            },
    {
        let mut i: usize = 0;
        while i < self.buffers.len()
            invariant
                self.wf(),
                i <= self.buffers@.len(),
                forall|j: int| 0 <= j < i ==> self.buffers@[j].handle != handle,
            decreases self.buffers@.len() - i,
        {
            if self.buffers[i].handle == handle {
                proof {
                    lemma_assoc_map_present(self.buffers@, i as int, handle);
                }
                return Some(&self.buffers[i].data);
            }
            i += 1;
        }
        proof {
            lemma_assoc_map_absent(self.buffers@, handle);
        }
        None
    }

    /// Replay one command against the model.
    pub fn apply(&mut self, cmd: &GlCommand)
        requires
            old(self).wf(),
        ensures
            final(self).wf(),
            final(self)@ == spec_apply(old(self)@, cmd@),
    {
        match cmd {
            GlCommand::BindVertexArray { handle } => {
                self.vertex_array_binding = *handle;
                proof {
                    assert(self@ =~= spec_apply(old(self)@, cmd@));
                }
            },
            GlCommand::BindBuffer { target, handle } => {
                match target {
                    BufferType::Array => {
                        self.array_binding = *handle;
                    },
                    BufferType::ElementArray => {
                        self.element_array_binding = *handle;
                    },
                }
                proof {
                    assert(self@ =~= spec_apply(old(self)@, cmd@));
                }
            },
            GlCommand::BufferData { target, data, usage } => {
                let bound = self.binding(*target);
                if bound != 0 {
                    self.store(bound, data);
                }
                proof {
                    assert(self@ =~= spec_apply(old(self)@, cmd@));
                }
            },
            _ => {
                proof {
                    assert(self@ =~= spec_apply(old(self)@, cmd@));
                }
            },
        }
    }

    /// Record `data` as the contents of buffer object `handle`.
    fn store(&mut self, handle: u32, data: &Vec<u8>)
        requires
            old(self).wf(),
        ensures
            final(self).wf(),
            final(self)@ == (GlStateV {
                buffer_contents: old(self)@.buffer_contents.insert(handle, data@),
                ..old(self)@
            }),
    {
        let mut i: usize = 0;
        while i < self.buffers.len()
            invariant
                self.wf(),
                self == old(self),
                i <= self.buffers@.len(),
                forall|j: int| 0 <= j < i ==> self.buffers@[j].handle != handle,
            decreases self.buffers@.len() - i,
        {
            if self.buffers[i].handle == handle {
                let entry = BufferObject { handle, data: clone_bytes(data) };
                proof {
                    lemma_assoc_map_update(self.buffers@, i as int, entry);
                }
                self.buffers.set(i, entry);
                proof {
                    assert(self@ =~= (GlStateV {
                        buffer_contents: old(self)@.buffer_contents.insert(handle, data@),
                        ..old(self)@
                    }));
                }
                return ;
            }
            i += 1;
        }
        self.buffers.push(BufferObject { handle, data: clone_bytes(data) });
        proof {
            assert(self.buffers@.drop_last() =~= old(self).buffers@);
            assert(self@ =~= (GlStateV {
                buffer_contents: old(self)@.buffer_contents.insert(handle, data@),
                ..old(self)@
            }));
        }
    }
}

/// A copy of a byte vector.
fn clone_bytes(data: &Vec<u8>) -> (out: Vec<u8>)
    ensures
        out@ == data@,
{
    vstd::slice::slice_to_vec(data.as_slice())
}

/// A handle that no entry carries is absent from the recorded contents.
proof fn lemma_assoc_map_absent(entries: Seq<BufferObject>, handle: u32)
    requires
        forall|j: int| 0 <= j < entries.len() ==> entries[j].handle != handle,
    ensures
        !assoc_map(entries).contains_key(handle),
    decreases entries.len(),
{
    if entries.len() > 0 {
        lemma_assoc_map_absent(entries.drop_last(), handle);
    }
}

/// The entry carrying a handle that no later entry carries gives that
/// handle's recorded contents.
proof fn lemma_assoc_map_present(entries: Seq<BufferObject>, i: int, handle: u32)
    requires
        0 <= i < entries.len(),
        entries[i].handle == handle,
        forall|j: int| i < j < entries.len() ==> entries[j].handle != handle,
    ensures
        assoc_map(entries).contains_key(handle),
        assoc_map(entries)[handle] == entries[i].data@,
    decreases entries.len(),
{
    if i + 1 == entries.len() {
    } else {
        lemma_assoc_map_present(entries.drop_last(), i, handle);
    }
}

/// Replacing the one entry that carries a handle updates the recorded
/// contents at that handle alone.
proof fn lemma_assoc_map_update(entries: Seq<BufferObject>, i: int, entry: BufferObject)
    requires
        0 <= i < entries.len(),
        entries[i].handle == entry.handle,
        forall|p: int, q: int|
            0 <= p < q < entries.len() ==> entries[p].handle != entries[q].handle,
    ensures
        assoc_map(entries.update(i, entry)) == assoc_map(entries).insert(
            entry.handle,
            entry.data@,
        ),
    decreases entries.len(),
{
    let updated = entries.update(i, entry);
    if i + 1 == entries.len() {
        assert(updated.drop_last() =~= entries.drop_last());
        assert(assoc_map(updated) =~= assoc_map(entries).insert(entry.handle, entry.data@));
    } else {
        lemma_assoc_map_update(entries.drop_last(), i, entry);
        assert(updated.drop_last() =~= entries.drop_last().update(i, entry));
        assert(updated.last() == entries.last());
        assert(entries[i].handle != entries.last().handle);
        assert(assoc_map(updated) == assoc_map(entries.drop_last()).insert(
            entry.handle,
            entry.data@,
        ).insert(entries.last().handle, entries.last().data@));
        assert(assoc_map(updated) =~= assoc_map(entries).insert(entry.handle, entry.data@));
    }
}

} // verus!
