//! The buffered pull adapter: a decoding engine between a buffered byte
//! source and the reader of the decoded content.
//!
//! The adapter never touches the source. Its holder peeks the source's
//! buffered region, hands the region in, and marks as consumed what the
//! adapter reports as used; the adapter decides everything else.

use vstd::prelude::*;
use crate::engine::{Decoded, Decoder};
use crate::error::{Error, Fault};
use crate::frame::FrameInfo;
use crate::window::{OutputBuffer, Window};

verus! {

/// How one cycle of a read ended.
#[derive(Clone, Copy, Debug, PartialEq, Eq, Structural)]
pub enum ReadStep {
    /// The engine took `used` bytes of the region, at least one. Mark them
    /// consumed at the source, peek again, and repeat the call.
    More { used: usize },
    /// The engine took nothing, so the pull is over: `len` bytes were
    /// delivered. Nothing is to be marked consumed at the source.
    Done { len: usize },
}

/// How one cycle of reading the frame header ended.
#[derive(Clone, Copy, Debug, PartialEq, Eq, Structural)]
pub enum HeaderStep {
    /// The header is known. Mark `used` bytes consumed at the source.
    Known { info: FrameInfo, used: usize },
    /// The engine took `used` bytes of the region, at least one, and the
    /// header is not complete yet. Mark them consumed, peek again, and repeat.
    More { used: usize },
    /// The engine took nothing and the header is still unknown: the source
    /// has ended inside the header, and repeating the call cannot help.
    Stalled,
}

/// What a pull cycle returns for the engine's answer to a region of `offered`
/// bytes: the number of bytes to mark consumed, or the failure.
pub open spec fn pull_result(offered: usize, outcome: Result<Decoded, Fault>) -> Result<
    usize,
    Error,
> {
    match outcome {
        Err(fault) => Err(Error::Decode(fault)),
        Ok(decoded) => if decoded.consumed > offered {
            Err(Error::Overrun { offered, claimed: decoded.consumed })
        } else {
            Ok(decoded.consumed)
        },
    }
}

/// The window after a pull cycle: an accepted answer adds its output behind
/// what was held, a failure changes nothing.
pub open spec fn pull_window(w: Window, offered: usize, outcome: Result<Decoded, Fault>) -> Window {
    match outcome {
        Err(_) => w,
        Ok(decoded) => if decoded.consumed > offered {
            w
        } else {
            w.append(decoded.output@)
        },
    }
}

/// A read delivers in the cycle in which the engine takes no input.
pub open spec fn read_delivers(offered: usize, outcome: Result<Decoded, Fault>) -> bool {
    pull_result(offered, outcome) == Ok::<usize, Error>(0)
}

/// What one cycle of a read for `want` bytes returns.
pub open spec fn read_result(
    w: Window,
    offered: usize,
    outcome: Result<Decoded, Fault>,
    want: nat,
) -> Result<ReadStep, Error> {
    match pull_result(offered, outcome) {
        Err(e) => Err(e),
        Ok(used) => if used > 0 {
            Ok(ReadStep::More { used })
        } else {
            Ok(ReadStep::Done { len: pull_window(w, offered, outcome).grant(want) as usize })
        },
    }
}

/// The window after one cycle of a read for `want` bytes.
pub open spec fn read_window(
    w: Window,
    offered: usize,
    outcome: Result<Decoded, Fault>,
    want: nat,
) -> Window {
    let filled = pull_window(w, offered, outcome);
    if read_delivers(offered, outcome) {
        filled.advance(filled.grant(want))
    } else {
        filled
    }
}

/// The destination after one cycle of a read into `dst`.
pub open spec fn read_bytes(
    w: Window,
    offered: usize,
    outcome: Result<Decoded, Fault>,
    dst: Seq<u8>,
) -> Seq<u8> {
    let filled = pull_window(w, offered, outcome);
    if read_delivers(offered, outcome) {
        filled.granted(dst.len()) + dst.skip(filled.grant(dst.len()) as int)
    } else {
        dst
    }
}

/// The header that is known once the engine reports `seen`: a header that
/// was known before stays.
pub open spec fn header_settled(known: Option<FrameInfo>, seen: Option<FrameInfo>) -> Option<
    FrameInfo,
> {
    if known is Some {
        known
    } else {
        seen
    }
}

/// How a header cycle ends once the engine has taken `used` bytes and
/// `seen` is the header that is known.
pub open spec fn header_step(used: usize, seen: Option<FrameInfo>) -> HeaderStep {
    match seen {
        Some(info) => HeaderStep::Known { info, used },
        None => if used > 0 {
            HeaderStep::More { used }
        } else {
            HeaderStep::Stalled
        },
    }
}

/// What a header read returns. `known` is the header the adapter has cached,
/// `probe` what the engine reports before the cycle, `outcome` its answer to
/// the region and `seen` what it reports afterwards.
pub open spec fn frame_info_result(
    known: Option<FrameInfo>,
    probe: Option<FrameInfo>,
    offered: usize,
    outcome: Result<Decoded, Fault>,
    seen: Option<FrameInfo>,
) -> Result<HeaderStep, Error> {
    match known {
        Some(info) => Ok(HeaderStep::Known { info, used: 0 }),
        None => match probe {
            Some(info) => Ok(HeaderStep::Known { info, used: 0 }),
            None => match pull_result(offered, outcome) {
                Err(e) => Err(e),
                Ok(used) => Ok(header_step(used, seen)),
            },
        },
    }
}

/// The header the adapter has cached after a header read.
pub open spec fn frame_info_known(
    known: Option<FrameInfo>,
    probe: Option<FrameInfo>,
    offered: usize,
    outcome: Result<Decoded, Fault>,
    seen: Option<FrameInfo>,
) -> Option<FrameInfo> {
    if known is Some {
        known
    } else if probe is Some {
        probe
    } else if pull_result(offered, outcome) is Ok {
        seen
    } else {
        None
    }
}

/// The window after a header read: the engine is fed only while the header
/// is unknown to both the adapter and the engine.
pub open spec fn frame_info_window(
    w: Window,
    known: Option<FrameInfo>,
    probe: Option<FrameInfo>,
    offered: usize,
    outcome: Result<Decoded, Fault>,
) -> Window {
    if known is None && probe is None {
        pull_window(w, offered, outcome)
    } else {
        w
    }
}

/// The buffered pull adapter for the decoding direction.
pub struct BufReadDecompressor<E: Decoder> {
    engine: E,
    out: OutputBuffer,
    info: Option<FrameInfo>,
}

impl<E: Decoder> BufReadDecompressor<E> {
    /// The output window: what the engine has decoded and the cursor in it.
    pub closed spec fn window(&self) -> Window {
        self.out@
    }

    /// The frame header, once it has been read.
    pub closed spec fn known_info(&self) -> Option<FrameInfo> {
        self.info
    }

    /// The engine the adapter owns.
    pub closed spec fn engine(&self) -> E {
        self.engine
    }

    /// The cursor invariant of the output window.
    pub open spec fn wf(&self) -> bool {
        self.window().wf()
    }

    /// What creating an adapter makes of the attempt to create its engine: a
    /// fresh adapter round the engine, with nothing in the window and no
    /// header known, or the engine's diagnostic as an initialization failure.
    pub open spec fn created(made: Result<E, Fault>, r: Result<Self, Error>) -> bool {
        match made {
            Ok(engine) => r matches Ok(adapter) && adapter.engine() == engine
                && adapter.window() == Window::empty() && adapter.known_info() is None,
            Err(fault) => r matches Err(e) && e == Error::Init(fault),
        }
    }

    /// Wraps what the attempt to create an engine gave.
    pub fn from_engine(made: Result<E, Fault>) -> (r: Result<Self, Error>)
        ensures
            Self::created(made, r),
            r matches Ok(adapter) ==> adapter.wf(),
    {
        match made {
            Ok(engine) => Ok(BufReadDecompressor { engine, out: OutputBuffer::new(), info: None }),
            Err(fault) => Err(Error::Init(fault)),
        }
    }

    /// Creates an adapter with a fresh engine, an empty output window and no
    /// header known. Fails exactly where the engine cannot be created, with
    /// the engine's diagnostic.
    pub fn new() -> (r: Result<Self, Error>)
        ensures
            exists|made: Result<E, Fault>|
                #![trigger call_ensures(E::create, (), made)]
                call_ensures(E::create, (), made) && Self::created(made, r),
            r matches Ok(adapter) ==> adapter.wf(),
    {
        let made = E::create();
        let ghost given = made;
        let r = Self::from_engine(made);
        proof {
            assert(call_ensures(E::create, (), given) && Self::created(given, r));
        }
        r
    }

    /// Hands a dictionary to the engine. Meant to be called before any input
    /// has been decoded; the output window and the header are untouched.
    pub fn set_dict(&mut self, dict: &[u8])
        ensures
            (exists|engine: &mut E|
                #![trigger call_ensures(E::set_dict, (engine, dict), ())]
                {
                    &&& *engine == old(self).engine()
                    &&& *final(engine) == final(self).engine()
                    &&& call_ensures(E::set_dict, (engine, dict), ())
                }),
            final(self).window() == old(self).window(),
            final(self).known_info() == old(self).known_info(),
    {
        self.engine.set_dict(dict);
    }

    /// Takes the engine's answer to a region of `offered` bytes into the
    /// window. An answer that claims more input than was offered is refused.
    pub fn absorb(&mut self, offered: usize, outcome: Result<Decoded, Fault>) -> (r: Result<
        usize,
        Error,
    >)
        requires
            old(self).wf(),
        ensures
            r == pull_result(offered, outcome),
            final(self).window() == pull_window(old(self).window(), offered, outcome),
            final(self).wf(),
            final(self).known_info() == old(self).known_info(),
            final(self).engine() == old(self).engine(),
    {
        match outcome {
            Err(fault) => Err(Error::Decode(fault)),
            Ok(decoded) => {
                if decoded.consumed > offered {
                    Err(Error::Overrun { offered, claimed: decoded.consumed })
                } else {
                    self.out.append(decoded.output.as_slice());
                    Ok(decoded.consumed)
                }
            },
        }
    }

    /// Finishes one cycle of a read from the engine's answer: the output is
    /// taken in, and in the cycle in which the engine took no input the
    /// pending bytes are copied to the front of `dst` and given up.
    pub fn resolve_read(
        &mut self,
        offered: usize,
        outcome: Result<Decoded, Fault>,
        dst: &mut [u8],
    ) -> (r: Result<ReadStep, Error>)
        requires
            old(self).wf(),
        ensures
            r == read_result(old(self).window(), offered, outcome, old(dst)@.len()),
            final(self).window() == read_window(
                old(self).window(),
                offered,
                outcome,
                old(dst)@.len(),
            ),
            final(dst)@ == read_bytes(old(self).window(), offered, outcome, old(dst)@),
            final(self).wf(),
            final(self).known_info() == old(self).known_info(),
            final(self).engine() == old(self).engine(),
    {
        let used: usize = self.absorb(offered, outcome)?;
        if used > 0 {
            Ok(ReadStep::More { used })
        } else {
            let len: usize = self.out.read(dst);
            Ok(ReadStep::Done { len })
        }
    }

    /// One cycle of a read: feeds the peeked `region` to the engine and, once
    /// the engine takes nothing more, delivers up to `dst.len()` pending bytes.
    ///
    /// The engine is asked once, with exactly the region, and the result is
    /// the one `resolve_read` gives for its answer. A cycle on an empty
    /// region never asks for another one.
    pub fn read(&mut self, region: &[u8], dst: &mut [u8]) -> (r: Result<ReadStep, Error>)
        requires
            old(self).wf(),
        ensures
            (exists|engine: &mut E, outcome: Result<Decoded, Fault>|
                #![trigger call_ensures(E::decode, (engine, region), outcome)]
                {
                    &&& *engine == old(self).engine()
                    &&& *final(engine) == final(self).engine()
                    &&& call_ensures(E::decode, (engine, region), outcome)
                    &&& r == read_result(
                        old(self).window(),
                        region@.len() as usize,
                        outcome,
                        old(dst)@.len(),
                    )
                    &&& final(self).window() == read_window(
                        old(self).window(),
                        region@.len() as usize,
                        outcome,
                        old(dst)@.len(),
                    )
                    &&& final(dst)@ == read_bytes(
                        old(self).window(),
                        region@.len() as usize,
                        outcome,
                        old(dst)@,
                    )
                }),
            r matches Ok(ReadStep::More { used }) ==> 0 < used <= region@.len(),
            region@.len() == 0 ==> !(r is Ok && r->Ok_0 is More),
            final(self).wf(),
            final(self).known_info() == old(self).known_info(),
    {
        let outcome = self.engine.decode(region);
        self.resolve_read(region.len(), outcome, dst)
    }

    /// One cycle of filling the window without delivering anything: the
    /// cycle of a read for no bytes. After `Done`, `buffer` shows all that
    /// the current input allows.
    ///
    /// The engine is asked once, with exactly the region.
    pub fn fill_buf(&mut self, region: &[u8]) -> (r: Result<ReadStep, Error>)
        requires
            old(self).wf(),
        ensures
            (exists|engine: &mut E, outcome: Result<Decoded, Fault>|
                #![trigger call_ensures(E::decode, (engine, region), outcome)]
                {
                    &&& *engine == old(self).engine()
                    &&& *final(engine) == final(self).engine()
                    &&& call_ensures(E::decode, (engine, region), outcome)
                    &&& r == read_result(old(self).window(), region@.len() as usize, outcome, 0)
                    &&& final(self).window() == pull_window(
                        old(self).window(),
                        region@.len() as usize,
                        outcome,
                    )
                }),
            r matches Ok(ReadStep::More { used }) ==> 0 < used <= region@.len(),
            region@.len() == 0 ==> !(r is Ok && r->Ok_0 is More),
            final(self).wf(),
            final(self).known_info() == old(self).known_info(),
    {
        let outcome = self.engine.decode(region);
        let used: usize = self.absorb(region.len(), outcome)?;
        if used > 0 {
            Ok(ReadStep::More { used })
        } else {
            Ok(ReadStep::Done { len: 0 })
        }
    }

    /// The pending bytes, without moving the cursor.
    pub fn buffer(&self) -> (view: &[u8])
        requires
            self.wf(),
        ensures
            view@ == self.window().pending(),
    {
        self.out.peek()
    }

    /// Gives up `amount` of the bytes that `buffer` shows. Giving up the last
    /// one empties the window and rewinds the cursor.
    pub fn consume(&mut self, amount: usize)
        requires
            old(self).wf(),
        ensures
            final(self).window() == old(self).window().advance(amount as nat),
            final(self).wf(),
            final(self).known_info() == old(self).known_info(),
            final(self).engine() == old(self).engine(),
    {
        self.out.consume(amount);
    }

    /// Finishes a header cycle in which the engine took `used` bytes and then
    /// reported `seen`: a header that has become known is cached, and one
    /// that was known before stays.
    pub fn resolve_header(&mut self, used: usize, seen: Option<FrameInfo>) -> (step: HeaderStep)
        ensures
            final(self).known_info() == header_settled(old(self).known_info(), seen),
            step == header_step(used, final(self).known_info()),
            final(self).window() == old(self).window(),
            final(self).engine() == old(self).engine(),
    {
        if self.info.is_none() {
            self.info = seen;
        }
        match self.info {
            Some(info) => HeaderStep::Known { info, used },
            None => {
                if used > 0 {
                    HeaderStep::More { used }
                } else {
                    HeaderStep::Stalled
                }
            },
        }
    }

    /// One cycle of reading the frame header.
    ///
    /// A header that is already known is returned at once: the engine is not
    /// asked, nothing is to be consumed at the source, and the adapter stays
    /// as it is. Otherwise the engine is asked for the header it knows, and
    /// if it knows none it is fed exactly the peeked `region` in header-only
    /// mode, which leaves the frame body in the source, and asked again.
    /// The cycle asks for another one only after the engine has taken at
    /// least one byte, so a source that has ended ends the reading too.
    pub fn read_frame_info(&mut self, region: &[u8]) -> (r: Result<HeaderStep, Error>)
        requires
            old(self).wf(),
        ensures
            (exists|probe: Option<FrameInfo>, outcome: Result<Decoded, Fault>, seen: Option<FrameInfo>|
                #![trigger frame_info_result(old(self).known_info(), probe, region@.len() as usize, outcome, seen)]
                {
                    let known = old(self).known_info();
                    let offered = region@.len() as usize;
                    &&& r == frame_info_result(known, probe, offered, outcome, seen)
                    &&& final(self).known_info() == frame_info_known(
                        known,
                        probe,
                        offered,
                        outcome,
                        seen,
                    )
                    &&& final(self).window() == frame_info_window(
                        old(self).window(),
                        known,
                        probe,
                        offered,
                        outcome,
                    )
                    &&& known is None ==> call_ensures(
                        E::frame_info,
                        (&old(self).engine(),),
                        probe,
                    )
                    &&& known is None && probe is None ==> (exists|
                        enter: &mut E,
                        feed: &mut E,
                        leave: &mut E,
                    |
                        #![trigger
                            call_ensures(E::header_only, (enter, true), ()),
                            call_ensures(E::decode, (feed, region), outcome),
                            call_ensures(E::header_only, (leave, false), ()),
                        ]
                        {
                            &&& *enter == old(self).engine()
                            &&& call_ensures(E::header_only, (enter, true), ())
                            &&& *feed == *final(enter)
                            &&& call_ensures(E::decode, (feed, region), outcome)
                            &&& *leave == *final(feed)
                            &&& call_ensures(E::header_only, (leave, false), ())
                            &&& *final(leave) == final(self).engine()
                        })
                    &&& (known is None && probe is None && pull_result(offered, outcome) is Ok)
                        ==> call_ensures(E::frame_info, (&final(self).engine(),), seen)
                    &&& (known is Some || probe is Some) ==> final(self).engine() == old(
                        self,
                    ).engine()
                }),
            old(self).known_info() matches Some(info) ==> r == Ok::<HeaderStep, Error>(
                HeaderStep::Known { info, used: 0 },
            ) && *final(self) == *old(self),
            r matches Ok(HeaderStep::Known { info, used }) ==> final(self).known_info() == Some(
                info,
            ) && used <= region@.len(),
            r matches Ok(HeaderStep::More { used }) ==> 0 < used <= region@.len(),
            region@.len() == 0 ==> !(r is Ok && r->Ok_0 is More),
            final(self).wf(),
    {
        let ghost idle: Result<Decoded, Fault> = Err(Fault { code: 0 });
        if let Some(info) = self.info {
            let r = Ok(HeaderStep::Known { info, used: 0 });
            proof {
                assert(r == frame_info_result(
                    old(self).known_info(),
                    None,
                    region@.len() as usize,
                    idle,
                    None,
                ));
            }
            return r;
        }
        let probe = self.engine.frame_info();
        if let Some(info) = probe {
            self.info = probe;
            let r = Ok(HeaderStep::Known { info, used: 0 });
            proof {
                assert(r == frame_info_result(
                    old(self).known_info(),
                    probe,
                    region@.len() as usize,
                    idle,
                    None,
                ));
            }
            return r;
        }
        self.engine.header_only(true);
        let outcome = self.engine.decode(region);
        self.engine.header_only(false);
        let ghost answer = outcome;
        match self.absorb(region.len(), outcome) {
            Err(e) => {
                let r = Err(e);
                proof {
                    assert(r == frame_info_result(
                        old(self).known_info(),
                        probe,
                        region@.len() as usize,
                        answer,
                        None,
                    ));
                }
                r
            },
            Ok(used) => {
                let seen = self.engine.frame_info();
                let r = Ok(self.resolve_header(used, seen));
                proof {
                    assert(r == frame_info_result(
                        old(self).known_info(),
                        probe,
                        region@.len() as usize,
                        answer,
                        seen,
                    ));
                }
                r
            },
        }
    }
}

} // verus!
