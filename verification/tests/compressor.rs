use std::io::{Read, Write};

use lz4_flex::frame::{FrameDecoder, FrameEncoder};
use lz4f_stream::comp::{AsyncReadCompressor, PollStep, SourcePoll};
use lz4f_stream::engine::Encoder;
use lz4f_stream::error::{Error, Fault};

const NO_DICTIONARY: u32 = 30;
const TOO_LONG: u32 = 31;
const BROKEN: u32 = 32;

/// Packs input into blocks of `block` bytes: each block is its length and its
/// bytes masked with `key`; a zero length closes the frame. Input longer
/// than 255 bytes is refused.
struct Packer {
    block: usize,
    key: u8,
    held: Vec<u8>,
}

impl Packer {
    fn flush(&mut self, all: bool) -> Vec<u8> {
        let mut out = Vec::new();
        while self.held.len() >= self.block || (all && !self.held.is_empty()) {
            let take = self.held.len().min(self.block);
            out.push(take as u8);
            out.extend(self.held.drain(..take).map(|b| b ^ self.key));
        }
        out
    }
}

impl Encoder for Packer {
    type Preferences = usize;

    fn create(prefs: usize) -> Result<Self, Fault> {
        if prefs == 0 || prefs > 255 {
            return Err(Fault { code: BROKEN });
        }
        Ok(Packer { block: prefs, key: 0, held: Vec::new() })
    }

    fn create_with_dict(prefs: usize, dict: &[u8]) -> Result<Self, Fault> {
        let mut packer = Packer::create(prefs)?;
        packer.key = dict.iter().fold(0u8, |sum, b| sum.wrapping_add(*b));
        Ok(packer)
    }

    fn encode(&mut self, input: &[u8]) -> Result<Vec<u8>, Fault> {
        if input.len() > 255 {
            return Err(Fault { code: TOO_LONG });
        }
        self.held.extend_from_slice(input);
        Ok(self.flush(false))
    }

    fn finish(&mut self) -> Result<Vec<u8>, Fault> {
        let mut out = self.flush(true);
        out.push(0);
        Ok(out)
    }
}

fn unpack(frame: &[u8], key: u8) -> Vec<u8> {
    let mut content = Vec::new();
    let mut at = 0;
    loop {
        let len = frame[at] as usize;
        at += 1;
        if len == 0 {
            assert_eq!(at, frame.len());
            return content;
        }
        content.extend(frame[at..at + len].iter().map(|b| b ^ key));
        at += len;
    }
}

/// An engine that encodes but cannot close its frame.
struct Unclosable;

impl Encoder for Unclosable {
    type Preferences = ();

    fn create(_prefs: ()) -> Result<Self, Fault> {
        Ok(Unclosable)
    }

    fn create_with_dict(_prefs: (), _dict: &[u8]) -> Result<Self, Fault> {
        Ok(Unclosable)
    }

    fn encode(&mut self, input: &[u8]) -> Result<Vec<u8>, Fault> {
        Ok(input.to_vec())
    }

    fn finish(&mut self) -> Result<Vec<u8>, Fault> {
        Err(Fault { code: BROKEN })
    }
}

/// The LZ4 frame encoder.
struct Lz4 {
    encoder: FrameEncoder<Vec<u8>>,
}

impl Lz4 {
    fn ready(&mut self) -> Vec<u8> {
        std::mem::take(self.encoder.get_mut())
    }
}

impl Encoder for Lz4 {
    type Preferences = lz4_flex::frame::FrameInfo;

    fn create(prefs: Self::Preferences) -> Result<Self, Fault> {
        Ok(Lz4 { encoder: FrameEncoder::with_frame_info(prefs, Vec::new()) })
    }

    fn create_with_dict(_prefs: Self::Preferences, _dict: &[u8]) -> Result<Self, Fault> {
        Err(Fault { code: NO_DICTIONARY })
    }

    fn encode(&mut self, input: &[u8]) -> Result<Vec<u8>, Fault> {
        self.encoder.write_all(input).map_err(|_| Fault { code: BROKEN })?;
        Ok(self.ready())
    }

    fn finish(&mut self) -> Result<Vec<u8>, Fault> {
        self.encoder.try_finish().map_err(|_| Fault { code: BROKEN })?;
        Ok(self.ready())
    }
}

/// A source over bytes in memory that shows at most `cap` bytes and is not
/// ready in the polls whose number `stalls` holds.
struct Source<'a> {
    data: &'a [u8],
    pos: usize,
    cap: usize,
    polls: usize,
    stalls: fn(usize) -> bool,
}

impl<'a> Source<'a> {
    fn new(data: &'a [u8], cap: usize, stalls: fn(usize) -> bool) -> Source<'a> {
        Source { data, pos: 0, cap, polls: 0, stalls }
    }

    fn poll_fill_buf(&mut self) -> SourcePoll<'a> {
        self.polls += 1;
        if (self.stalls)(self.polls) {
            SourcePoll::NotReady
        } else {
            let end = self.data.len().min(self.pos.saturating_add(self.cap));
            SourcePoll::Ready(&self.data[self.pos..end])
        }
    }

    fn consume(&mut self, amount: usize) {
        assert!(self.pos + amount <= self.data.len());
        self.pos += amount;
    }
}

fn never(_poll: usize) -> bool {
    false
}

fn every_other(poll: usize) -> bool {
    poll % 2 == 1
}

fn two_of_three(poll: usize) -> bool {
    poll % 3 != 0
}

/// One poll of the adapter against the source: `None` stands for a suspension.
fn poll_read<E: Encoder>(
    adapter: &mut AsyncReadCompressor<E>,
    source: &mut Source,
    dst: &mut [u8],
) -> Result<Option<usize>, Error> {
    loop {
        match adapter.poll_read(source.poll_fill_buf(), dst)? {
            PollStep::Pending => return Ok(None),
            PollStep::Again { used } => source.consume(used),
            PollStep::Ready { used, len } => {
                source.consume(used);
                return Ok(Some(len));
            }
        }
    }
}

/// Polls until the stream ends; returns what was delivered and how often
/// the adapter suspended.
fn drain<E: Encoder>(
    adapter: &mut AsyncReadCompressor<E>,
    source: &mut Source,
    chunk: usize,
) -> Result<(Vec<u8>, usize), Error> {
    let mut all = Vec::new();
    let mut suspensions = 0;
    let mut dst = vec![0u8; chunk];
    loop {
        match poll_read(adapter, source, &mut dst)? {
            None => suspensions += 1,
            Some(0) => return Ok((all, suspensions)),
            Some(len) => all.extend_from_slice(&dst[..len]),
        }
    }
}

fn lz4_decode(frame: &[u8]) -> Vec<u8> {
    let mut content = Vec::new();
    FrameDecoder::new(frame).read_to_end(&mut content).unwrap();
    content
}

fn packer(block: usize) -> AsyncReadCompressor<Packer> {
    AsyncReadCompressor::new(block).unwrap()
}

#[test]
fn new_reports_an_encoder_that_cannot_be_created() {
    let made: Result<AsyncReadCompressor<Packer>, Error> = AsyncReadCompressor::new(0);
    assert_eq!(made.err(), Some(Error::Init(Fault { code: BROKEN })));
}

#[test]
fn with_dict_reports_an_encoder_that_takes_no_dictionary() {
    let made: Result<AsyncReadCompressor<Lz4>, Error> =
        AsyncReadCompressor::with_dict(lz4_flex::frame::FrameInfo::new(), b"dictionary");
    assert_eq!(made.err(), Some(Error::Init(Fault { code: NO_DICTIONARY })));
}

#[test]
fn from_engine_wraps_the_diagnostic_of_a_failed_creation() {
    let made: Result<AsyncReadCompressor<Packer>, Error> =
        AsyncReadCompressor::from_engine(Err(Fault { code: 4 }));
    assert_eq!(made.err(), Some(Error::Init(Fault { code: 4 })));
}

#[test]
fn source_that_is_not_ready_suspends_the_poll() {
    let mut adapter = packer(4);
    let mut dst = [9u8; 4];
    assert_eq!(adapter.poll_read(SourcePoll::NotReady, &mut dst), Ok(PollStep::Pending));
    assert_eq!(dst, [9u8; 4]);
    assert_eq!(adapter.poll_read(SourcePoll::Ready(b"abcd"), &mut dst), Ok(PollStep::Ready { used: 4, len: 4 }));
    assert_eq!(&dst, &[4, b'a', b'b', b'c']);
    assert_eq!(adapter.poll_read(SourcePoll::NotReady, &mut dst), Ok(PollStep::Pending));
    assert_eq!(&dst, &[4, b'a', b'b', b'c']);
    assert_eq!(adapter.poll_read(SourcePoll::Ready(b""), &mut dst), Ok(PollStep::Ready { used: 0, len: 2 }));
    assert_eq!(&dst[..2], &[b'd', 0]);
}

#[test]
fn poll_asks_again_while_the_engine_holds_everything_back() {
    let mut adapter = packer(8);
    let mut dst = [0u8; 16];
    assert_eq!(adapter.poll_read(SourcePoll::Ready(b"abc"), &mut dst), Ok(PollStep::Again { used: 3 }));
    assert_eq!(adapter.poll_read(SourcePoll::Ready(b"def"), &mut dst), Ok(PollStep::Again { used: 3 }));
    assert_eq!(dst, [0u8; 16]);
    assert_eq!(adapter.poll_read(SourcePoll::Ready(b"gh"), &mut dst), Ok(PollStep::Ready { used: 2, len: 9 }));
    assert_eq!(&dst[..9], &[8, b'a', b'b', b'c', b'd', b'e', b'f', b'g', b'h']);
}

#[test]
fn end_of_input_closes_the_frame_once() {
    let mut adapter = packer(8);
    let mut dst = [0u8; 16];
    assert_eq!(adapter.poll_read(SourcePoll::Ready(b"abc"), &mut dst), Ok(PollStep::Again { used: 3 }));
    assert_eq!(adapter.poll_read(SourcePoll::Ready(b""), &mut dst), Ok(PollStep::Ready { used: 0, len: 5 }));
    assert_eq!(&dst[..5], &[3, b'a', b'b', b'c', 0]);
    assert_eq!(adapter.poll_read(SourcePoll::Ready(b""), &mut dst), Ok(PollStep::Ready { used: 0, len: 0 }));
    assert_eq!(adapter.poll_read(SourcePoll::Ready(b""), &mut dst), Ok(PollStep::Ready { used: 0, len: 0 }));
}

#[test]
fn empty_input_still_gives_a_closed_frame() {
    let mut adapter = packer(8);
    let mut source = Source::new(b"", 8, never);
    let (frame, suspensions) = drain(&mut adapter, &mut source, 4).unwrap();
    assert_eq!(frame, [0u8]);
    assert_eq!(suspensions, 0);
}

#[test]
fn small_destination_gets_the_frame_piece_by_piece() {
    let mut adapter = packer(4);
    let mut dst = [0u8; 2];
    assert_eq!(adapter.poll_read(SourcePoll::Ready(b"abcd"), &mut dst), Ok(PollStep::Ready { used: 4, len: 2 }));
    assert_eq!(&dst, &[4, b'a']);
    assert_eq!(adapter.poll_read(SourcePoll::Ready(b""), &mut dst), Ok(PollStep::Ready { used: 0, len: 2 }));
    assert_eq!(&dst, &[b'b', b'c']);
    assert_eq!(adapter.poll_read(SourcePoll::Ready(b""), &mut dst), Ok(PollStep::Ready { used: 0, len: 2 }));
    assert_eq!(&dst, &[b'd', 0]);
    assert_eq!(adapter.poll_read(SourcePoll::Ready(b""), &mut dst), Ok(PollStep::Ready { used: 0, len: 0 }));
}

#[test]
fn destination_without_room_gets_nothing_and_loses_nothing() {
    let mut adapter = packer(2);
    let mut none = [0u8; 0];
    assert_eq!(adapter.poll_read(SourcePoll::Ready(b"ab"), &mut none), Ok(PollStep::Ready { used: 2, len: 0 }));
    let mut dst = [0u8; 8];
    assert_eq!(adapter.poll_read(SourcePoll::Ready(b""), &mut dst), Ok(PollStep::Ready { used: 0, len: 4 }));
    assert_eq!(&dst[..4], &[2, b'a', b'b', 0]);
}

#[test]
fn encode_failure_is_an_encode_error() {
    let mut adapter = packer(4);
    let mut dst = [0u8; 8];
    assert_eq!(adapter.poll_read(SourcePoll::Ready(b"abcd"), &mut dst), Ok(PollStep::Ready { used: 4, len: 5 }));
    let long = [1u8; 300];
    let mut after = [7u8; 8];
    assert_eq!(
        adapter.poll_read(SourcePoll::Ready(&long), &mut after),
        Err(Error::Encode(Fault { code: TOO_LONG }))
    );
    assert_eq!(after, [7u8; 8]);
}

#[test]
fn failure_to_close_the_frame_is_an_encode_error() {
    let mut adapter: AsyncReadCompressor<Unclosable> = AsyncReadCompressor::new(()).unwrap();
    let mut dst = [0u8; 8];
    assert_eq!(adapter.poll_read(SourcePoll::Ready(b"abc"), &mut dst), Ok(PollStep::Ready { used: 3, len: 3 }));
    assert_eq!(
        adapter.poll_read(SourcePoll::Ready(b""), &mut dst),
        Err(Error::Encode(Fault { code: BROKEN }))
    );
}

#[test]
fn absorb_takes_the_answer_into_the_window() {
    let mut adapter = packer(4);
    assert_eq!(adapter.absorb(3, Ok(b"xyz".to_vec())), Ok(()));
    assert_eq!(adapter.absorb(2, Err(Fault { code: 8 })), Err(Error::Encode(Fault { code: 8 })));
    let mut dst = [0u8; 8];
    assert_eq!(adapter.hand_over(3, &mut dst), PollStep::Ready { used: 3, len: 3 });
    assert_eq!(&dst[..3], b"xyz");
}

#[test]
fn absorb_at_the_end_of_input_marks_the_frame_closed() {
    let mut adapter = packer(4);
    assert_eq!(adapter.absorb(0, Ok(vec![0])), Ok(()));
    let mut dst = [9u8; 4];
    assert_eq!(adapter.poll_read(SourcePoll::Ready(b""), &mut dst), Ok(PollStep::Ready { used: 0, len: 1 }));
    assert_eq!(dst, [0, 9, 9, 9]);
    assert_eq!(adapter.poll_read(SourcePoll::Ready(b""), &mut dst), Ok(PollStep::Ready { used: 0, len: 0 }));
}

#[test]
fn hand_over_asks_again_only_with_input_taken_and_nothing_pending() {
    let mut adapter = packer(4);
    let mut dst = [0u8; 4];
    assert_eq!(adapter.hand_over(5, &mut dst), PollStep::Again { used: 5 });
    assert_eq!(adapter.hand_over(0, &mut dst), PollStep::Ready { used: 0, len: 0 });
    assert_eq!(adapter.absorb(5, Ok(b"abcdef".to_vec())), Ok(()));
    assert_eq!(adapter.hand_over(5, &mut dst), PollStep::Ready { used: 5, len: 4 });
    assert_eq!(&dst, b"abcd");
    assert_eq!(adapter.hand_over(0, &mut dst), PollStep::Ready { used: 0, len: 2 });
    assert_eq!(&dst, b"efcd");
}

#[test]
fn packed_frame_unpacks_to_the_input() {
    let content: Vec<u8> = (0..200u8).collect();
    for block in [1usize, 3, 64, 255] {
        for cap in [1usize, 5, 200] {
            for chunk in [1usize, 3, 1024] {
                let mut adapter = packer(block);
                let mut source = Source::new(&content, cap, never);
                let (frame, _) = drain(&mut adapter, &mut source, chunk).unwrap();
                assert_eq!(unpack(&frame, 0), content);
            }
        }
    }
}

#[test]
fn dictionary_reaches_the_encoder() {
    let dict = b"a shared dictionary";
    let key = dict.iter().fold(0u8, |sum, b| sum.wrapping_add(*b));
    let mut adapter: AsyncReadCompressor<Packer> = AsyncReadCompressor::with_dict(16, dict).unwrap();
    let mut source = Source::new(b"Hello world!", 5, never);
    let (frame, _) = drain(&mut adapter, &mut source, 7).unwrap();
    assert_eq!(unpack(&frame, key), b"Hello world!");
    assert_ne!(unpack(&frame, 0), b"Hello world!");
}

#[test]
fn suspensions_do_not_change_the_output() {
    let content: Vec<u8> = (0..1000u32).map(|i| (i % 7 * 31) as u8).collect();
    let mut steady = packer(16);
    let mut source = Source::new(&content, 10, never);
    let (expected, none) = drain(&mut steady, &mut source, 9).unwrap();
    assert_eq!(none, 0);
    for stalls in [every_other as fn(usize) -> bool, two_of_three] {
        let mut adapter = packer(16);
        let mut source = Source::new(&content, 10, stalls);
        let (frame, suspensions) = drain(&mut adapter, &mut source, 9).unwrap();
        assert!(suspensions > 0);
        assert_eq!(frame, expected);
    }
    assert_eq!(unpack(&expected, 0), content);
}

#[test]
fn suspensions_do_not_change_an_lz4_frame() {
    let content: Vec<u8> = (0..20_000u32).map(|i| (i % 13 * i % 251) as u8).collect();
    let prefs = lz4_flex::frame::FrameInfo::new();
    let mut steady: AsyncReadCompressor<Lz4> = AsyncReadCompressor::new(prefs.clone()).unwrap();
    let mut source = Source::new(&content, 4096, never);
    let (expected, _) = drain(&mut steady, &mut source, 1000).unwrap();
    let mut adapter: AsyncReadCompressor<Lz4> = AsyncReadCompressor::new(prefs).unwrap();
    let mut source = Source::new(&content, 4096, every_other);
    let (frame, suspensions) = drain(&mut adapter, &mut source, 1000).unwrap();
    assert!(suspensions > 0);
    assert_eq!(frame, expected);
    assert_eq!(lz4_decode(&frame), content);
}

#[test]
fn lz4_frame_of_hello_world_decodes_to_hello_world() {
    for chunk in [1usize, 3, 1024] {
        let mut adapter: AsyncReadCompressor<Lz4> =
            AsyncReadCompressor::new(lz4_flex::frame::FrameInfo::new()).unwrap();
        let mut source = Source::new(b"Hello world!", 5, two_of_three);
        let (frame, _) = drain(&mut adapter, &mut source, chunk).unwrap();
        assert_eq!(lz4_decode(&frame), b"Hello world!");
    }
}

#[test]
fn lz4_frame_of_nothing_decodes_to_nothing() {
    let mut adapter: AsyncReadCompressor<Lz4> =
        AsyncReadCompressor::new(lz4_flex::frame::FrameInfo::new()).unwrap();
    let mut source = Source::new(b"", 5, never);
    let (frame, _) = drain(&mut adapter, &mut source, 64).unwrap();
    assert!(!frame.is_empty());
    assert_eq!(lz4_decode(&frame), b"");
}
