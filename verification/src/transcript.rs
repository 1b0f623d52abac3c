use vstd::prelude::*;
use crate::authot::websocket_response::{is_subtitle_of, LiveSubtitle, WebsocketResponse};

verus! {

/// What the worker does with a message of the recognition service.
pub enum TranscriptAction {
    /// Nothing: the message is not one the worker acts on.
    Ignore,
    /// The transcription is over: report the end of the process.
    EndOfProcess,
    /// Publish this subtitle document.
    Publish(LiveSubtitle),
}

/// The state of a transcription session: the sequence number that the next
/// published subtitle takes.
pub struct TranscriptSession {
    next_sequence_number: usize,
}

/// The message closes the transcription.
pub open spec fn ends_transcript(response: WebsocketResponse) -> bool {
    response.message@ == "EndOfTranscript"@
}

/// The message carries a transcript to publish.
pub open spec fn publishes(response: WebsocketResponse) -> bool {
    response.message@ == "AddTranscript"@ && response.metadata is Some
}

/// The sequence number for the subtitle after `response`, where `n` was the
/// one before it.
pub open spec fn next_number(n: nat, response: WebsocketResponse) -> nat {
    if publishes(response) {
        n + 1
    } else {
        n
    }
}

/// The sequence number for the next subtitle once a fresh session has
/// handled `responses`, in order.
pub open spec fn number_after(responses: Seq<WebsocketResponse>) -> nat
    decreases responses.len(),
{
    if responses.len() == 0 {
        0
    } else {
        next_number(number_after(responses.drop_last()), responses.last())
    }
}

impl TranscriptSession {
    /// The sequence number that the next published subtitle takes.
    pub closed spec fn next_number(&self) -> nat {
        self.next_sequence_number as nat
    }

    /// A session that has published nothing yet.
    pub fn new() -> (session: Self)
        ensures
            session.next_number() == 0,
    {
        TranscriptSession { next_sequence_number: 0 }
    }

    /// The sequence number that the next published subtitle takes.
    pub fn next_sequence_number(&self) -> (n: usize)
        ensures
            n == self.next_number(),
    {
        self.next_sequence_number
    }

    /// Handles a message of the service: the end of the transcript ends the
    /// process, a transcript is published under the next sequence number,
    /// anything else is ignored.
    pub fn handle_response(&mut self, response: &WebsocketResponse) -> (action: TranscriptAction)
        requires
            publishes(*response) ==> old(self).next_number() < usize::MAX,
        ensures
            final(self).next_number() == next_number(old(self).next_number(), *response),
            ends_transcript(*response) ==> action is EndOfProcess,
            response.message@ == "EndOfTranscript"@ ==> action is EndOfProcess,
            response.message@ == "AddTranscript"@ && response.metadata is Some ==> (
            action matches TranscriptAction::Publish(subtitle) && subtitle.sequence_number as int
                == old(self).next_number() && subtitle.transcript@
                == response.metadata.unwrap().transcript@),
            publishes(*response) ==> (action matches TranscriptAction::Publish(subtitle)
                && is_subtitle_of(
                subtitle,
                response.metadata.unwrap().transcript@,
                old(self).next_number(),
            )),
            !ends_transcript(*response) && !publishes(*response) ==> action is Ignore,
    {
        proof {
            reveal_strlit("EndOfTranscript");
            reveal_strlit("AddTranscript");
            assert("EndOfTranscript"@[0] != "AddTranscript"@[0]);
        }
        if response.message == String::from_str("EndOfTranscript") {
            return TranscriptAction::EndOfProcess;
        }
        if response.message == String::from_str("AddTranscript") {
            match &response.metadata {
                Some(metadata) => {
                    let subtitle = metadata.generate_ttml(self.next_sequence_number);
                    self.next_sequence_number = self.next_sequence_number + 1;
                    return TranscriptAction::Publish(subtitle);
                },
                None => {},
            }
        }
        TranscriptAction::Ignore
    }
}

/// A session numbers subtitles in the order their transcripts arrive: the
/// message that publishes takes the current number and advances it by one,
/// any other message leaves it as it was.
pub proof fn lemma_numbering_steps(responses: Seq<WebsocketResponse>, i: int)
    requires
        0 <= i < responses.len(),
    ensures
        publishes(responses[i]) ==> number_after(responses.take(i + 1)) == number_after(
            responses.take(i),
        ) + 1,
        !publishes(responses[i]) ==> number_after(responses.take(i + 1)) == number_after(
            responses.take(i),
        ),
{
    assert(responses.take(i + 1).drop_last() =~= responses.take(i));
    assert(responses.take(i + 1).last() == responses[i]);
}

/// The number of the session never goes down as messages arrive.
pub proof fn lemma_numbering_monotonic(responses: Seq<WebsocketResponse>, i: int, j: int)
    requires
        0 <= i <= j <= responses.len(),
    ensures
        number_after(responses.take(i)) <= number_after(responses.take(j)),
    decreases j - i,
{
    if i < j {
        lemma_numbering_monotonic(responses, i, j - 1);
        lemma_numbering_steps(responses, j - 1);
    }
}

/// No two published subtitles share a sequence number: a later transcript
/// always gets a larger number than an earlier one.
pub proof fn lemma_subtitle_numbers_increase(responses: Seq<WebsocketResponse>, i: int, j: int)
    requires
        0 <= i < j < responses.len(),
        publishes(responses[i]),
        publishes(responses[j]),
    ensures
        number_after(responses.take(i)) < number_after(responses.take(j)),
{
    lemma_numbering_steps(responses, i);
    lemma_numbering_monotonic(responses, i + 1, j);
}

/// Every message `EndOfTranscript` ends the process, whatever its other
/// fields hold; it publishes nothing and leaves the numbering as it was.
pub proof fn lemma_end_of_transcript_keeps_number(n: nat, response: WebsocketResponse)
    requires
        response.message@ == "EndOfTranscript"@,
    ensures
        ends_transcript(response),
        !publishes(response),
        next_number(n, response) == n,
{
    reveal_strlit("EndOfTranscript");
    reveal_strlit("AddTranscript");
    assert("EndOfTranscript"@[0] != "AddTranscript"@[0]);
}

/// Every message `AddTranscript` that carries a transcript is published and
/// advances the numbering by one, whatever its other fields hold.
pub proof fn lemma_add_transcript_publishes(n: nat, response: WebsocketResponse)
    requires
        response.message@ == "AddTranscript"@,
        response.metadata is Some,
    ensures
        publishes(response),
        !ends_transcript(response),
        next_number(n, response) == n + 1,
{
    reveal_strlit("EndOfTranscript");
    reveal_strlit("AddTranscript");
    assert("EndOfTranscript"@[0] != "AddTranscript"@[0]);
}

/// The numbers given out are exactly `0, 1, 2, ...`: after a sequence of
/// messages, the next number is the count of the messages that published.
pub proof fn lemma_number_counts_publications(responses: Seq<WebsocketResponse>)
    ensures
        number_after(responses) == responses.filter(|r: WebsocketResponse| publishes(r)).len(),
    decreases responses.len(),
{
    reveal_with_fuel(Seq::filter, 1);
    if responses.len() > 0 {
        lemma_number_counts_publications(responses.drop_last());
    }
}

} // verus!
