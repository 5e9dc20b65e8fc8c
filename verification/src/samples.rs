//! Collection of the decoded samples of one track.
//!
//! A container file interleaves packets of several tracks. Loading a
//! song keeps the packets of its default track only: each packet's track
//! is checked, the packets of the chosen track are decoded, and their
//! samples are appended in the order in which they came.

use vstd::prelude::*;
use crate::errors::AudioError;

verus! {

/// Sample rate assumed when the codec does not report one.
pub const DEFAULT_SAMPLE_RATE: u32 = 44100;

/// The sample rate a song is played at: the one that the codec reported,
/// else the default.
pub open spec fn effective_sample_rate(reported: Option<u32>) -> u32 {
    match reported {
        Some(rate) => rate,
        None => DEFAULT_SAMPLE_RATE,
    }
}

/// A song is played at the rate its codec reports, whatever that rate is,
/// and at 44100 Hz exactly when no rate is reported.
pub proof fn lemma_sample_rate(rate: u32)
    ensures
        effective_sample_rate(Some(rate)) == rate,
        effective_sample_rate(None) == 44100,
        forall|other: u32| effective_sample_rate(Some(other)) == effective_sample_rate(Some(rate))
            ==> other == rate,
{
}

/// Chooses the sample rate: the reported one, else the default.
pub fn resolve_sample_rate(reported: Option<u32>) -> (rate: u32)
    ensures
        rate == effective_sample_rate(reported),
        reported matches Some(r) ==> rate == r,
        reported is None ==> rate == 44100,
{
    match reported {
        Some(rate) => rate,
        None => DEFAULT_SAMPLE_RATE,
    }
}

/// What reading the next packet from the container gave.
#[derive(Clone, Copy, Debug, PartialEq, Eq)]
pub enum PacketRead {
    /// A packet of the track with this id.
    Packet(u32),
    /// No packet: the stream ended or could not be read further.
    End,
}

/// What loading does next with what was read.
#[derive(Clone, Copy, Debug, PartialEq, Eq)]
pub enum PacketAction {
    /// Decode the packet and hand its samples to `on_decoded`.
    Decode,
    /// Skip the packet: it belongs to another track.
    Skip,
    /// Stop reading; the samples gathered so far are the song.
    Finish,
}

/// Accumulates the decoded samples of the packets of one track.
pub struct SampleCollector<T> {
    track_id: u32,
    samples: Vec<T>,
}

impl<T> View for SampleCollector<T> {
    /// The chosen track and the samples gathered so far.
    type V = (u32, Seq<T>);

    closed spec fn view(&self) -> (u32, Seq<T>) {
        (self.track_id, self.samples@)
    }
}

impl<T: Copy> SampleCollector<T> {
    /// A collector for the packets of track `track_id`, with no samples yet.
    pub fn new(track_id: u32) -> (res: Self)
        ensures
            res@.0 == track_id,
            res@.1 == Seq::<T>::empty(),
    {
        SampleCollector { track_id, samples: Vec::new() }
    }

    /// The track whose packets are kept.
    pub fn track_id(&self) -> (id: u32)
        ensures
            id == self@.0,
    {
        self.track_id
    }

    /// Whether a packet of track `packet_track_id` is to be decoded and
    /// kept; packets of every other track are skipped.
    pub fn accepts(&self, packet_track_id: u32) -> (keep: bool)
        ensures
            keep == (packet_track_id == self@.0),
    {
        packet_track_id == self.track_id
    }

    /// Appends the samples of one decoded packet after those gathered so far.
    pub fn push_decoded(&mut self, decoded: &[T])
        ensures
            final(self)@.0 == old(self)@.0,
            final(self)@.1 == old(self)@.1 + decoded@,
    {
        let mut i: usize = 0;
        let ghost start = self.samples@;
        while i < decoded.len()
            invariant
                i <= decoded@.len(),
                self.track_id == old(self).track_id,
                start == old(self).samples@,
                self.samples@ == start + decoded@.subrange(0, i as int),
            decreases decoded@.len() - i,
        {
            let sample = decoded[i];
            self.samples.push(sample);
            proof {
                assert(self.samples@ =~= start + decoded@.subrange(0, i + 1));
            }
            i = i + 1;
        }
        proof {
            assert(decoded@.subrange(0, decoded@.len() as int) =~= decoded@);
        }
    }

    /// Decides on what reading the next packet gave: the first failed read
    /// ends loading, a packet of the chosen track is decoded, any other
    /// packet is skipped.
    pub fn on_packet(&self, read: PacketRead) -> (action: PacketAction)
        ensures
            action == match read {
                PacketRead::End => PacketAction::Finish,
                PacketRead::Packet(id) => if id == self@.0 {
                    PacketAction::Decode
                } else {
                    PacketAction::Skip
                },
            },
    {
        match read {
            PacketRead::End => PacketAction::Finish,
            PacketRead::Packet(id) => if self.accepts(id) {
                PacketAction::Decode
            } else {
                PacketAction::Skip
            },
        }
    }

    /// Takes the outcome of decoding a packet: its samples are appended, or
    /// the decoder's error, described by `detail`, ends loading with
    /// `AudioError::PacketDecode` and leaves the samples as they were.
    pub fn on_decoded(&mut self, decoded: Result<&[T], String>) -> (res: Result<(), AudioError>)
        ensures
            final(self)@.0 == old(self)@.0,
            match decoded {
                Ok(samples) => res is Ok && final(self)@.1 == old(self)@.1 + samples@,
                Err(detail) => res == Err::<(), AudioError>(AudioError::PacketDecode(detail))
                    && final(self)@.1 == old(self)@.1,
            },
    {
        match decoded {
            Ok(samples) => {
                self.push_decoded(samples);
                Ok(())
            },
            Err(detail) => Err(AudioError::PacketDecode(detail)),
        }
    }

    /// The samples gathered, with the sample rate to play them at: the
    /// reported rate, else the default.
    pub fn finish(self, reported_rate: Option<u32>) -> (res: (Vec<T>, u32))
        ensures
            res.0@ == self@.1,
            res.1 == effective_sample_rate(reported_rate),
            reported_rate matches Some(r) ==> res.1 == r,
            reported_rate is None ==> res.1 == 44100,
    {
        let rate = resolve_sample_rate(reported_rate);
        (self.samples, rate)
    }
}

} // verus!
