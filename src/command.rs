//! Building the argument list of a pstoedit conversion.
use vstd::prelude::*;
use vstd::slice::slice_to_vec;
use vstd::string::StringSliceAdditionalSpecFns;
use vstd::utf8::encode_utf8;

use crate::buffers::{
    arg_vec_get, arg_vec_items, arg_vec_len, arg_vec_new, arg_vec_push, c_buffer, c_buffer_of,
    has_nul, is_c_buffer, ArgVec, MAX_ARGS,
};
use crate::error::{Error, Result};

verus! {

/// The program name that pstoedit expects as its first argument.
pub open spec fn program_name() -> Seq<u8> {
    seq![0x70u8, 0x73, 0x74, 0x6f, 0x65, 0x64, 0x69, 0x74]
}

/// The byte contents of a list of owned texts.
pub open spec fn texts_of(args: Seq<String>) -> Seq<Seq<u8>> {
    args.map_values(|s: String| encode_utf8(s@))
}

/// The byte contents of a list of borrowed texts.
pub open spec fn str_texts_of(args: Seq<&str>) -> Seq<Seq<u8>> {
    args.map_values(|s: &str| encode_utf8(s@))
}

/// The buffers handed over for a list of texts, in the same order.
pub open spec fn buffers_of(texts: Seq<Seq<u8>>) -> Seq<Seq<u8>> {
    texts.map_values(|t: Seq<u8>| c_buffer_of(t))
}

/// Whether one of the texts holds a nul byte.
pub open spec fn any_has_nul(texts: Seq<Seq<u8>>) -> bool {
    exists|k: int| 0 <= k < texts.len() && has_nul(#[trigger] texts[k])
}

/// Whether `after` is `before` with the buffers of the texts that precede
/// the first text holding a nul byte.
pub open spec fn stopped_at_nul(before: Seq<Seq<u8>>, after: Seq<Seq<u8>>, texts: Seq<Seq<u8>>) -> bool {
    exists|k: int|
        #![trigger texts[k]]
        0 <= k < texts.len() && has_nul(texts[k]) && !any_has_nul(texts.take(k)) && after == before
            + buffers_of(texts.take(k))
}

proof fn lemma_buffers_of_step(texts: Seq<Seq<u8>>, i: int)
    requires
        0 <= i < texts.len(),
    ensures
        buffers_of(texts.take(i + 1)) == buffers_of(texts.take(i)).push(c_buffer_of(texts[i])),
        !has_nul(texts[i]) && !any_has_nul(texts.take(i)) ==> !any_has_nul(texts.take(i + 1)),
{
    assert(buffers_of(texts.take(i + 1)) =~= buffers_of(texts.take(i)).push(c_buffer_of(texts[i])));
    if !has_nul(texts[i]) && !any_has_nul(texts.take(i)) {
        assert forall|k: int| 0 <= k < i + 1 implies !has_nul(#[trigger] texts.take(i + 1)[k]) by {
            if k < i {
                assert(texts.take(i + 1)[k] == texts.take(i)[k]);
            }
        }
    }
}

proof fn lemma_stopped_at(before: Seq<Seq<u8>>, after: Seq<Seq<u8>>, texts: Seq<Seq<u8>>, i: int)
    requires
        0 <= i < texts.len(),
        has_nul(texts[i]),
        !any_has_nul(texts.take(i)),
        after == before + buffers_of(texts.take(i)),
    ensures
        stopped_at_nul(before, after, texts),
        any_has_nul(texts),
{
}

/// Command builder for a pstoedit conversion.
///
/// A command holds the program name, the arguments added after it, and an
/// optional ghostscript executable, each as an owned nul-terminated buffer.
/// It can be run any number of times.
pub struct Command {
    args: ArgVec,
    gs: Option<Vec<u8>>,
}

impl Command {
    /// The buffers of all arguments, program name first.
    pub closed spec fn buffers(&self) -> Seq<Seq<u8>> {
        arg_vec_items(self.args).map_values(|b: Vec<u8>| b@)
    }

    /// The buffer of the ghostscript executable, if one was given.
    pub closed spec fn gs_spec(&self) -> Option<Seq<u8>> {
        match self.gs {
            Some(b) => Some(b@),
            None => None,
        }
    }

    /// Every buffer ends with its only nul, the program name comes first, and
    /// there are at most [`MAX_ARGS`] arguments, so their count fits
    /// pstoedit's `int`.
    pub open spec fn wf(&self) -> bool {
        &&& self.buffers().len() >= 1
        &&& self.buffers().len() <= MAX_ARGS
        &&& self.buffers()[0] == c_buffer_of(program_name())
        &&& forall|i: int| 0 <= i < self.buffers().len() ==> is_c_buffer(#[trigger] self.buffers()[i])
        &&& self.gs_spec() matches Some(g) ==> is_c_buffer(g)
    }

    /// Creates a command with the program name and no other argument.
    pub fn new() -> (r: Self)
        ensures
            r.wf(),
            r.buffers() == seq![c_buffer_of(program_name())],
            r.gs_spec() is None,
    {
        let name: Vec<u8> = vec![0x70u8, 0x73, 0x74, 0x6f, 0x65, 0x64, 0x69, 0x74, 0];
        let mut args = arg_vec_new();
        arg_vec_push(&mut args, name);
        let r = Command { args, gs: None };
        assert(name@ =~= c_buffer_of(program_name()));
        assert(r.buffers() =~= seq![c_buffer_of(program_name())]);
        r
    }

    /// Adds a single argument.
    ///
    /// Fails with `NulError` when the argument holds a nul byte; the command
    /// is then left as it was.
    pub fn arg(&mut self, arg: &str) -> (r: Result<&mut Self>)
        requires
            old(self).wf(),
            old(self).buffers().len() < MAX_ARGS,
        ensures
            r is Ok <==> !has_nul(arg.spec_bytes()),
            r matches Ok(c) ==> {
                &&& *final(self) == *final(c)
                &&& c.wf()
                &&& c.gs_spec() == old(self).gs_spec()
                &&& c.buffers() == old(self).buffers().push(c_buffer_of(arg.spec_bytes()))
            },
            r matches Err(e) ==> *final(self) == *old(self) && e is NulError,
    {
        match c_buffer(slice_to_vec(arg.as_bytes())) {
            Ok(buf) => {
                arg_vec_push(&mut self.args, buf);
                assert(self.buffers() =~= old(self).buffers().push(c_buffer_of(arg.spec_bytes())));
                Ok(self)
            },
            Err(e) => Err(Error::NulError(e)),
        }
    }

    /// Adds the arguments of `args` in order.
    ///
    /// Fails with `NulError` at the first argument that holds a nul byte;
    /// the arguments before it stay added.
    pub fn args(&mut self, args: Vec<String>) -> (r: Result<&mut Self>)
        requires
            old(self).wf(),
            old(self).buffers().len() + args.len() <= MAX_ARGS,
        ensures
            r is Ok <==> !any_has_nul(texts_of(args@)),
            r matches Ok(c) ==> {
                &&& *final(self) == *final(c)
                &&& c.wf()
                &&& c.gs_spec() == old(self).gs_spec()
                &&& c.buffers() == old(self).buffers() + buffers_of(texts_of(args@))
            },
            r matches Err(e) ==> {
                &&& e is NulError
                &&& final(self).wf()
                &&& final(self).gs_spec() == old(self).gs_spec()
                &&& stopped_at_nul(old(self).buffers(), final(self).buffers(), texts_of(args@))
            },
    {
        let n = args.len();
        let mut i: usize = 0;
        while i < n
            invariant
                n == args.len(),
                i <= n,
                self.wf(),
                self.gs_spec() == old(self).gs_spec(),
                old(self).buffers().len() + n <= MAX_ARGS,
                self.buffers() == old(self).buffers() + buffers_of(texts_of(args@).take(i as int)),
                !any_has_nul(texts_of(args@).take(i as int)),
            decreases n - i,
        {
            proof {
                lemma_buffers_of_step(texts_of(args@), i as int);
            }
            match self.arg(args[i].as_str()) {
                Ok(_) => {},
                Err(e) => {
                    proof {
                        lemma_stopped_at(old(self).buffers(), self.buffers(), texts_of(args@), i as int);
                    }
                    return Err(e);
                },
            }
            i = i + 1;
        }
        assert(texts_of(args@).take(n as int) =~= texts_of(args@));
        Ok(self)
    }

    /// Adds the arguments of the slice `args` in order.
    ///
    /// Fails with `NulError` at the first argument that holds a nul byte;
    /// the arguments before it stay added.
    pub fn args_slice(&mut self, args: &[&str]) -> (r: Result<&mut Self>)
        requires
            old(self).wf(),
            old(self).buffers().len() + args@.len() <= MAX_ARGS,
        ensures
            r is Ok <==> !any_has_nul(str_texts_of(args@)),
            r matches Ok(c) ==> {
                &&& *final(self) == *final(c)
                &&& c.wf()
                &&& c.gs_spec() == old(self).gs_spec()
                &&& c.buffers() == old(self).buffers() + buffers_of(str_texts_of(args@))
            },
            r matches Err(e) ==> {
                &&& e is NulError
                &&& final(self).wf()
                &&& final(self).gs_spec() == old(self).gs_spec()
                &&& stopped_at_nul(old(self).buffers(), final(self).buffers(), str_texts_of(args@))
            },
    {
        let n = args.len();
        let mut i: usize = 0;
        while i < n
            invariant
                n == args@.len(),
                i <= n,
                self.wf(),
                self.gs_spec() == old(self).gs_spec(),
                old(self).buffers().len() + n <= MAX_ARGS,
                self.buffers() == old(self).buffers() + buffers_of(str_texts_of(args@).take(i as int)),
                !any_has_nul(str_texts_of(args@).take(i as int)),
            decreases n - i,
        {
            proof {
                lemma_buffers_of_step(str_texts_of(args@), i as int);
            }
            match self.arg(args[i]) {
                Ok(_) => {},
                Err(e) => {
                    proof {
                        lemma_stopped_at(old(self).buffers(), self.buffers(), str_texts_of(args@), i as int);
                    }
                    return Err(e);
                },
            }
            i = i + 1;
        }
        assert(str_texts_of(args@).take(n as int) =~= str_texts_of(args@));
        Ok(self)
    }

    /// Sets the ghostscript executable that pstoedit runs, in place of the
    /// one it finds by itself.
    ///
    /// Fails with `NulError` when the path holds a nul byte; the command is
    /// then left as it was.
    pub fn gs(&mut self, gs: &str) -> (r: Result<&mut Self>)
        requires
            old(self).wf(),
        ensures
            r is Ok <==> !has_nul(gs.spec_bytes()),
            r matches Ok(c) ==> {
                &&& *final(self) == *final(c)
                &&& c.wf()
                &&& c.buffers() == old(self).buffers()
                &&& c.gs_spec() == Some(c_buffer_of(gs.spec_bytes()))
            },
            r matches Err(e) ==> *final(self) == *old(self) && e is NulError,
    {
        match c_buffer(slice_to_vec(gs.as_bytes())) {
            Ok(buf) => {
                self.gs = Some(buf);
                Ok(self)
            },
            Err(e) => Err(Error::NulError(e)),
        }
    }

    /// The number of arguments, program name included, as pstoedit's `argc`.
    pub fn argc(&self) -> (r: i32)
        requires
            self.wf(),
        ensures
            r == self.buffers().len(),
    {
        arg_vec_len(&self.args) as i32
    }

    /// The nul-terminated buffer of the argument at `index`; the program name
    /// is at index 0.
    pub fn arg_buffer(&self, index: usize) -> (r: &Vec<u8>)
        requires
            self.wf(),
            index < self.buffers().len(),
        ensures
            r@ == self.buffers()[index as int],
            is_c_buffer(r@),
    {
        arg_vec_get(&self.args, index)
    }

    /// The nul-terminated buffer of the ghostscript executable, if one was
    /// set.
    pub fn gs_buffer(&self) -> (r: Option<&Vec<u8>>)
        requires
            self.wf(),
        ensures
            r is Some <==> self.gs_spec() is Some,
            r matches Some(b) ==> Some(b@) == self.gs_spec() && is_c_buffer(b@),
    {
        self.gs.as_ref()
    }
}

impl Default for Command {
    fn default() -> (r: Self)
        ensures
            r.wf(),
            r.buffers() == seq![c_buffer_of(program_name())],
            r.gs_spec() is None,
    {
        Self::new()
    }
}

} // verus!
