use vstd::prelude::*;
use crate::authot::start_recognition_information::StartRecognitionInformation;

verus! {

/// What a transcription job asks of the worker.
pub struct WorkerParameters {
    /// A live process already created at Authot: the worker then skips the
    /// creation of a new one.
    pub authot_live_id: Option<u32>,
    /// The token that gives access to the Authot service.
    pub authot_token: Option<String>,
    /// Words the recognition should know of besides its own vocabulary.
    pub custom_vocabulary: Option<Vec<String>>,
    pub destination_path: String,
    pub source_path: String,
    /// The recognition service: `authot`, `speechmatics`, or another name,
    /// which falls back to a local speechmatics service.
    pub provider: String,
}

/// Where the recognition websocket is found.
pub enum WebsocketEndpoint {
    /// Ask Authot for the websocket of this existing live process.
    AuthotLive(u32),
    /// Create a new Authot live process and use its websocket.
    AuthotNewLive,
    /// Connect to this address.
    Fixed(String),
}

/// The speechmatics service of the worker's network.
pub open spec fn speechmatics_url() -> Seq<char> {
    "ws://192.168.101.109:9000/v2"@
}

/// The service used for any other provider name.
pub open spec fn fallback_url() -> Seq<char> {
    "ws://localhost:9000/v2"@
}

impl WorkerParameters {
    /// The endpoint that the parameters select, as `websocket_endpoint`
    /// computes it.
    pub open spec fn spec_endpoint_is(self, endpoint: WebsocketEndpoint) -> bool {
        if self.provider@ == "authot"@ {
            match self.authot_live_id {
                Some(id) => endpoint == WebsocketEndpoint::AuthotLive(id),
                None => endpoint is AuthotNewLive,
            }
        } else if self.provider@ == "speechmatics"@ {
            endpoint matches WebsocketEndpoint::Fixed(url) && url@ == speechmatics_url()
        } else {
            endpoint matches WebsocketEndpoint::Fixed(url) && url@ == fallback_url()
        }
    }

    /// Chooses the recognition websocket: Authot (an existing live process
    /// when one is given, else a new one), speechmatics, or the local
    /// fallback for any other provider.
    pub fn websocket_endpoint(&self) -> (endpoint: WebsocketEndpoint)
        ensures
            self.spec_endpoint_is(endpoint),
            self.provider@ == "speechmatics"@ ==> (endpoint matches WebsocketEndpoint::Fixed(url)
                && url@ == "ws://192.168.101.109:9000/v2"@),
    {
        let authot = String::from_str("authot");
        let speechmatics = String::from_str("speechmatics");
        proof {
            reveal_strlit("authot");
            reveal_strlit("speechmatics");
            assert("speechmatics"@[0] != "authot"@[0]);
        }
        if self.provider == authot {
            match self.authot_live_id {
                Some(id) => WebsocketEndpoint::AuthotLive(id),
                None => WebsocketEndpoint::AuthotNewLive,
            }
        } else if self.provider == speechmatics {
            WebsocketEndpoint::Fixed(String::from_str("ws://192.168.101.109:9000/v2"))
        } else {
            WebsocketEndpoint::Fixed(String::from_str("ws://localhost:9000/v2"))
        }
    }

    /// The session opening sent to the service: the default one, with the
    /// job's custom vocabulary when it gives one.
    pub fn start_recognition(&self) -> (info: StartRecognitionInformation)
        ensures
            info.is_default_session(),
            info.transcription_config.additional_vocab@ == match self.custom_vocabulary {
                Some(vocabulary) => vocabulary@,
                None => Seq::<String>::empty(),
            },
    {
        let mut info = StartRecognitionInformation::new();
        match &self.custom_vocabulary {
            Some(vocabulary) => {
                let copy = copy_strings(vocabulary);
                info.set_custom_vocabulary(copy);
            },
            None => {},
        }
        info
    }
}

/// A speechmatics job always goes to the speechmatics service of the
/// network, whatever live id, token or vocabulary the job also holds.
pub proof fn lemma_speechmatics_endpoint(parameters: WorkerParameters, endpoint: WebsocketEndpoint)
    requires
        parameters.provider@ == "speechmatics"@,
        parameters.spec_endpoint_is(endpoint),
    ensures
        endpoint matches WebsocketEndpoint::Fixed(url) && url@ == "ws://192.168.101.109:9000/v2"@,
{
    reveal_strlit("speechmatics");
    reveal_strlit("authot");
    reveal_strlit("ws://192.168.101.109:9000/v2");
    reveal_strlit("ws://localhost:9000/v2");
    assert("speechmatics"@[0] != "authot"@[0]);
    assert("ws://192.168.101.109:9000/v2"@[5] != "ws://localhost:9000/v2"@[5]);
}

/// An Authot job uses the live process it names, and creates one only when
/// it names none; it never goes to a fixed address.
pub proof fn lemma_authot_endpoint(parameters: WorkerParameters, endpoint: WebsocketEndpoint)
    requires
        parameters.provider@ == "authot"@,
        parameters.spec_endpoint_is(endpoint),
    ensures
        parameters.authot_live_id matches Some(id) ==> endpoint == WebsocketEndpoint::AuthotLive(
            id,
        ),
        parameters.authot_live_id is None ==> endpoint is AuthotNewLive,
{
}

/// The local fallback service is chosen only for a provider that is
/// neither `authot` nor `speechmatics`, and always for such a provider.
pub proof fn lemma_fallback_only_for_unknown_providers(
    parameters: WorkerParameters,
    endpoint: WebsocketEndpoint,
)
    requires
        parameters.spec_endpoint_is(endpoint),
    ensures
        (endpoint matches WebsocketEndpoint::Fixed(url) && url@ == "ws://localhost:9000/v2"@) <==> (
        parameters.provider@ != "authot"@ && parameters.provider@ != "speechmatics"@),
{
    reveal_strlit("ws://192.168.101.109:9000/v2");
    reveal_strlit("ws://localhost:9000/v2");
    assert("ws://192.168.101.109:9000/v2"@[5] != "ws://localhost:9000/v2"@[5]);
}

/// A copy of a list of strings.
fn copy_strings(strings: &Vec<String>) -> (copy: Vec<String>)
    ensures
        copy@ == strings@,
{
    let mut copy: Vec<String> = Vec::new();
    let mut i: usize = 0;
    while i < strings.len()
        invariant
            i <= strings.len(),
            copy@ == strings@.take(i as int),
        decreases strings.len() - i,
    {
        copy.push(strings[i].clone());
        assert(copy@ =~= strings@.take(i as int + 1));
        i = i + 1;
    }
    assert(strings@.take(strings.len() as int) =~= strings@);
    copy
}

} // verus!
