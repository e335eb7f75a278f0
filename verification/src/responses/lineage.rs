//! The lineage of responses: what the server has confirmed, so that a request carries only what is
//! new since then.

use vstd::prelude::*;
use vstd::string::*;

use crate::json::{alike, copy_json, same_json, text_views, Json, JsonTree};
use crate::text::{optional_view, same_optional_text, same_text};

verus! {

/// One item of a conversation: what it says, and metadata that is internal to this client.
#[derive(Debug, PartialEq, Eq)]
pub struct ResponseItem {
    pub content: Json,
    pub internal_metadata: Option<Json>,
}

/// What an item of a conversation holds.
pub struct ItemData {
    pub content: JsonTree,
    pub internal_metadata: Option<JsonTree>,
}

/// What an optional document holds.
pub open spec fn optional_tree(json: Option<Json>) -> Option<JsonTree> {
    match json {
        Some(j) => Some(j@),
        None => None,
    }
}

impl View for ResponseItem {
    type V = ItemData;

    open spec fn view(&self) -> ItemData {
        ItemData {
            content: self.content@,
            internal_metadata: optional_tree(self.internal_metadata),
        }
    }
}

/// What some items hold.
pub open spec fn item_views(items: Seq<ResponseItem>) -> Seq<ItemData> {
    Seq::new(items.len(), |i: int| items[i]@)
}

/// A request for a response.
#[derive(Debug, PartialEq, Eq)]
pub struct ResponsesApiRequest {
    pub model: String,
    pub instructions: String,
    pub previous_response_id: Option<String>,
    pub input: Vec<ResponseItem>,
    pub tools: Json,
    pub tool_choice: Json,
    pub parallel_tool_calls: bool,
    pub reasoning: Json,
    pub store: bool,
    pub stream: bool,
    pub stream_options: Json,
    pub included: Vec<String>,
    pub service_tier: Option<String>,
    pub prompt_cache_key: Option<String>,
    pub text: Json,
    pub client_metadata: Json,
    pub access_programs: Json,
}

/// What of a request decides whether a response to it may be continued.
pub struct RequestProperties {
    pub model: Seq<char>,
    pub instructions: Seq<char>,
    pub tools: JsonTree,
    pub tool_choice: JsonTree,
    pub parallel_tool_calls: bool,
    pub reasoning: JsonTree,
    pub store: bool,
    pub stream: bool,
    pub included: Seq<Seq<char>>,
    pub service_tier: Option<Seq<char>>,
    pub prompt_cache_key: Option<Seq<char>>,
    pub text: JsonTree,
}

/// What a request holds, as far as its lineage goes.
pub struct LineageRequest {
    pub properties: RequestProperties,
    pub input: Seq<ItemData>,
}

impl View for ResponsesApiRequest {
    type V = LineageRequest;

    open spec fn view(&self) -> LineageRequest {
        LineageRequest {
            properties: RequestProperties {
                model: self.model@,
                instructions: self.instructions@,
                tools: self.tools@,
                tool_choice: self.tool_choice@,
                parallel_tool_calls: self.parallel_tool_calls,
                reasoning: self.reasoning@,
                store: self.store,
                stream: self.stream,
                included: text_views(self.included@),
                service_tier: optional_view(self.service_tier),
                prompt_cache_key: optional_view(self.prompt_cache_key),
                text: self.text@,
            },
            input: item_views(self.input@),
        }
    }
}

fn same_texts(left: &Vec<String>, right: &Vec<String>) -> (same: bool)
    ensures
        same == (text_views(left@) == text_views(right@)),
{
    if left.len() != right.len() {
        assert(text_views(left@).len() != text_views(right@).len());
        return false;
    }
    let mut i: usize = 0;
    while i < left.len()
        invariant
            i <= left@.len(),
            left@.len() == right@.len(),
            forall|j: int| 0 <= j < i ==> #[trigger] text_views(left@)[j] == text_views(right@)[j],
        decreases left@.len() - i,
    {
        if !same_text(left[i].as_str(), right[i].as_str()) {
            assert(text_views(left@)[i as int] != text_views(right@)[i as int]);
            return false;
        }
        i += 1;
    }
    assert(text_views(left@) =~= text_views(right@));
    true
}

/// Two requests agree in all that a continued response depends on.
pub open spec fn properties_agree(previous: RequestProperties, current: RequestProperties) -> bool {
    &&& previous.model == current.model
    &&& previous.instructions == current.instructions
    &&& alike(previous.tools, current.tools)
    &&& alike(previous.tool_choice, current.tool_choice)
    &&& previous.parallel_tool_calls == current.parallel_tool_calls
    &&& alike(previous.reasoning, current.reasoning)
    &&& previous.store == current.store
    &&& previous.stream == current.stream
    &&& previous.included == current.included
    &&& previous.service_tier == current.service_tier
    &&& previous.prompt_cache_key == current.prompt_cache_key
    &&& alike(previous.text, current.text)
}

/// Tells whether two requests agree in all that a continued response depends on. The input is not
/// part of that, nor is how the response is delivered, nor what is noted of one attempt.
pub fn responses_request_properties_match(
    previous: &ResponsesApiRequest,
    current: &ResponsesApiRequest,
) -> (matching: bool)
    ensures
        matching == properties_agree(previous@.properties, current@.properties),
{
    same_text(previous.model.as_str(), current.model.as_str()) && same_text(
        previous.instructions.as_str(),
        current.instructions.as_str(),
    ) && same_json(&previous.tools, &current.tools) && same_json(
        &previous.tool_choice,
        &current.tool_choice,
    ) && previous.parallel_tool_calls == current.parallel_tool_calls && same_json(
        &previous.reasoning,
        &current.reasoning,
    ) && previous.store == current.store && previous.stream == current.stream && same_texts(
        &previous.included,
        &current.included,
    ) && same_optional_text(&previous.service_tier, &current.service_tier) && same_optional_text(
        &previous.prompt_cache_key,
        &current.prompt_cache_key,
    ) && same_json(&previous.text, &current.text)
}

/// Tells whether two items say the same, whatever is noted of them internally.
pub fn response_items_equal_ignoring_internal_metadata(
    previous: &ResponseItem,
    current: &ResponseItem,
) -> (equal: bool)
    ensures
        equal == alike(previous@.content, current@.content),
{
    same_json(&previous.content, &current.content)
}

/// The last response of the server to a request.
#[derive(Debug)]
pub struct LastResponse {
    pub response_id: String,
    pub items_added: Vec<ResponseItem>,
}

/// What the last response of the server holds.
pub struct LastResponseData {
    pub response_id: Seq<char>,
    pub items_added: Seq<ItemData>,
}

impl View for LastResponse {
    type V = LastResponseData;

    open spec fn view(&self) -> LastResponseData {
        LastResponseData {
            response_id: self.response_id@,
            items_added: item_views(self.items_added@),
        }
    }
}

/// What becomes known of a request.
#[derive(Debug)]
pub enum ResponsesLineageUpdate {
    Completed { response: LastResponse },
    PreviousResponseNotFound,
}

/// What was found of a pending request.
#[derive(Debug)]
pub enum Received {
    Completed { response: LastResponse },
    PreviousResponseNotFound,
    /// Nothing yet.
    Empty,
    /// Nothing, and nothing will come.
    Closed,
}

/// What was found of a pending request, in terms of what it holds.
pub enum ReceivedData {
    Completed { response: LastResponseData },
    PreviousResponseNotFound,
    Empty,
    Closed,
}

impl View for Received {
    type V = ReceivedData;

    open spec fn view(&self) -> ReceivedData {
        match self {
            Received::Completed { response } => ReceivedData::Completed { response: response@ },
            Received::PreviousResponseNotFound => ReceivedData::PreviousResponseNotFound,
            Received::Empty => ReceivedData::Empty,
            Received::Closed => ReceivedData::Closed,
        }
    }
}

/// The receiving end of a channel for one value.
#[verifier::external_type_specification]
#[verifier::external_body]
#[verifier::reject_recursive_types(T)]
pub struct ExReceiver<T>(tokio::sync::oneshot::Receiver<T>);

/// The error of awaiting such a receiver.
#[verifier::external_type_specification]
#[verifier::external_body]
pub struct ExRecvError(tokio::sync::oneshot::error::RecvError);

/// A channel holds nothing for its receiving end any more: its value was taken out, or it was found
/// closed.
pub uninterp spec fn channel_spent(
    receiver: tokio::sync::oneshot::Receiver<ResponsesLineageUpdate>,
) -> bool;

/// `tokio::sync::oneshot::Receiver::try_recv`: what the other end has sent by now, if anything. An
/// answer spends the channel, and a spent channel is closed. Where nothing has come yet, the
/// receiver stays as it was. Which of these it is on a channel that is not spent is not said, since
/// that depends on what the other end does and when.
#[verifier::external_body]
fn poll_update(receiver: &mut tokio::sync::oneshot::Receiver<ResponsesLineageUpdate>) -> (received:
    Received)
    ensures
        channel_spent(*final(receiver)) <==> !(received is Empty),
        channel_spent(*old(receiver)) ==> received is Closed,
        received is Empty ==> *final(receiver) == *old(receiver),
{
    match receiver.try_recv() {
        Ok(ResponsesLineageUpdate::Completed { response }) => Received::Completed { response },
        Ok(ResponsesLineageUpdate::PreviousResponseNotFound) => Received::PreviousResponseNotFound,
        Err(tokio::sync::oneshot::error::TryRecvError::Empty) => Received::Empty,
        Err(tokio::sync::oneshot::error::TryRecvError::Closed) => Received::Closed,
    }
}

/// A request whose response the server has confirmed.
#[derive(Debug)]
pub struct ConfirmedResponse {
    pub request: ResponsesApiRequest,
    pub response: LastResponse,
    pub from_untraced_warmup: bool,
}

/// What a confirmed response holds.
pub struct ConfirmedData {
    pub request: LineageRequest,
    pub response: LastResponseData,
    pub from_untraced_warmup: bool,
}

impl View for ConfirmedResponse {
    type V = ConfirmedData;

    open spec fn view(&self) -> ConfirmedData {
        ConfirmedData {
            request: self.request@,
            response: self.response@,
            from_untraced_warmup: self.from_untraced_warmup,
        }
    }
}

/// A request whose response is not confirmed yet.
#[derive(Debug)]
pub struct PendingResponse {
    request: ResponsesApiRequest,
    receiver: tokio::sync::oneshot::Receiver<ResponsesLineageUpdate>,
    from_untraced_warmup: bool,
}

/// What a pending request holds.
pub struct PendingData {
    pub request: LineageRequest,
    pub from_untraced_warmup: bool,
}

impl View for PendingResponse {
    type V = PendingData;

    closed spec fn view(&self) -> PendingData {
        PendingData {
            request: self.request@,
            from_untraced_warmup: self.from_untraced_warmup,
        }
    }
}

/// What the server has confirmed, whatever connection it came over. A pending request does not take
/// its place until the response to it is complete.
#[derive(Debug)]
pub struct ResponsesLineage {
    confirmed: Option<ConfirmedResponse>,
    pending: Option<PendingResponse>,
}

/// What a lineage holds.
pub struct LineageData {
    pub confirmed: Option<ConfirmedData>,
    pub pending: Option<PendingData>,
}

impl View for ResponsesLineage {
    type V = LineageData;

    closed spec fn view(&self) -> LineageData {
        LineageData {
            confirmed: match self.confirmed {
                Some(c) => Some(c@),
                None => None,
            },
            pending: match self.pending {
                Some(p) => Some(p@),
                None => None,
            },
        }
    }
}

/// A request that continues a confirmed response.
#[derive(Debug)]
pub struct IncrementalResponseRequest {
    pub previous_response_id: String,
    pub input: Vec<ResponseItem>,
    pub previous_response_from_untraced_warmup: bool,
}

/// What a request that continues a response holds.
pub struct IncrementalData {
    pub previous_response_id: Seq<char>,
    pub input: Seq<ItemData>,
    pub previous_response_from_untraced_warmup: bool,
}

impl View for IncrementalResponseRequest {
    type V = IncrementalData;

    open spec fn view(&self) -> IncrementalData {
        IncrementalData {
            previous_response_id: self.previous_response_id@,
            input: item_views(self.input@),
            previous_response_from_untraced_warmup: self.previous_response_from_untraced_warmup,
        }
    }
}

/// The items that the server knows: those of the request and those that it added.
pub open spec fn known_items(confirmed: ConfirmedData) -> Seq<ItemData> {
    confirmed.request.input + confirmed.response.items_added
}

/// The one items are the start of the others, by what they say.
pub open spec fn items_continue(known: Seq<ItemData>, input: Seq<ItemData>) -> bool {
    &&& known.len() <= input.len()
    &&& forall|i: int|
        0 <= i < known.len() ==> alike((#[trigger] known[i]).content, (#[trigger] input[i]).content)
}

/// The request that continues a confirmed response with what is new in another request: where both
/// agree in their properties, what the server knows is the start of the new input, there is
/// something new or nothing needs to be, and the response has an id.
pub open spec fn continued(
    confirmed: Option<ConfirmedData>,
    request: LineageRequest,
    allow_empty_delta: bool,
) -> Option<IncrementalData> {
    match confirmed {
        None => None,
        Some(c) => {
            let known = known_items(c);
            if properties_agree(c.request.properties, request.properties) && items_continue(
                known,
                request.input,
            ) && (allow_empty_delta || known.len() < request.input.len())
                && c.response.response_id.len() > 0 {
                Some(
                    IncrementalData {
                        previous_response_id: c.response.response_id,
                        input: request.input.skip(known.len() as int),
                        previous_response_from_untraced_warmup: c.from_untraced_warmup,
                    },
                )
            } else {
                None
            }
        },
    }
}

/// The lineage once it is known what was found of the pending request, if there is one.
pub open spec fn settled(lineage: LineageData, received: ReceivedData) -> LineageData {
    match lineage.pending {
        None => lineage,
        Some(pending) => match received {
            ReceivedData::Completed { response } => LineageData {
                confirmed: Some(
                    ConfirmedData {
                        request: pending.request,
                        response,
                        from_untraced_warmup: pending.from_untraced_warmup,
                    },
                ),
                pending: None,
            },
            ReceivedData::PreviousResponseNotFound => LineageData { confirmed: None, pending: None },
            ReceivedData::Empty => lineage,
            ReceivedData::Closed => LineageData { pending: None, ..lineage },
        },
    }
}

fn copy_item(item: &ResponseItem) -> (copy: ResponseItem)
    ensures
        copy@ == item@,
{
    ResponseItem {
        content: copy_json(&item.content),
        internal_metadata: match &item.internal_metadata {
            Some(metadata) => Some(copy_json(metadata)),
            None => None,
        },
    }
}

fn copy_items_from(items: &Vec<ResponseItem>, from: usize) -> (copies: Vec<ResponseItem>)
    requires
        from <= items@.len(),
    ensures
        item_views(copies@) == item_views(items@).skip(from as int),
{
    let mut copies: Vec<ResponseItem> = Vec::new();
    let mut i: usize = from;
    while i < items.len()
        invariant
            from <= i <= items@.len(),
            copies@.len() == i - from,
            forall|j: int| 0 <= j < i - from ==> (#[trigger] copies@[j])@ == items@[from + j]@,
        decreases items@.len() - i,
    {
        copies.push(copy_item(&items[i]));
        i += 1;
    }
    assert(item_views(copies@) =~= item_views(items@).skip(from as int));
    copies
}

/// Tells whether some items stand in others from a place on, by what they say.
fn items_match_at(known: &Vec<ResponseItem>, input: &Vec<ResponseItem>, at: usize) -> (matching:
    bool)
    requires
        at + known@.len() <= input@.len(),
    ensures
        matching == (forall|i: int|
            0 <= i < known@.len() ==> alike(
                (#[trigger] known@[i])@.content,
                input@[at + i]@.content,
            )),
{
    let total = input.len();
    let mut i: usize = 0;
    while i < known.len()
        invariant
            i <= known@.len(),
            total == input@.len(),
            at + known@.len() <= input@.len(),
            forall|j: int|
                0 <= j < i ==> alike((#[trigger] known@[j])@.content, input@[at + j]@.content),
        decreases known@.len() - i,
    {
        if !response_items_equal_ignoring_internal_metadata(&known[i], &input[at + i]) {
            assert(!alike(known@[i as int]@.content, input@[at + i]@.content));
            return false;
        }
        i += 1;
    }
    true
}

/// Continues a confirmed response with what is new in a request, where that can be done.
pub fn continue_response(
    confirmed: &ConfirmedResponse,
    request: &ResponsesApiRequest,
    allow_empty_delta: bool,
) -> (incremental: Option<IncrementalResponseRequest>)
    ensures
        incremental is Some <==> continued(Some(confirmed@), request@, allow_empty_delta) is Some,
        incremental matches Some(i) ==> continued(Some(confirmed@), request@, allow_empty_delta)
            == Some(i@),
{
    let ghost known = known_items(confirmed@);
    if !responses_request_properties_match(&confirmed.request, request) {
        return None;
    }
    let sent: usize = confirmed.request.input.len();
    let added: usize = confirmed.response.items_added.len();
    let total: usize = request.input.len();
    if sent > total || added > total - sent {
        return None;
    }
    let sent_match = items_match_at(&confirmed.request.input, &request.input, 0);
    let added_match = items_match_at(&confirmed.response.items_added, &request.input, sent);
    proof {
        let input = request@.input;
        if sent_match && added_match {
            assert forall|i: int| 0 <= i < known.len() implies alike(
                (#[trigger] known[i]).content,
                (#[trigger] input[i]).content,
            ) by {
                if i < sent {
                    assert(known[i] == confirmed.request.input@[i]@);
                    assert(input[i] == request.input@[0 + i]@);
                } else {
                    assert(known[i] == confirmed.response.items_added@[i - sent]@);
                    assert(input[i] == request.input@[sent + (i - sent)]@);
                }
            }
        } else {
            if items_continue(known, input) {
                assert forall|i: int| 0 <= i < confirmed.request.input@.len() implies alike(
                    (#[trigger] confirmed.request.input@[i])@.content,
                    request.input@[0 + i]@.content,
                ) by {
                    assert(alike(known[i].content, input[i].content));
                }
                assert forall|i: int| 0 <= i < confirmed.response.items_added@.len() implies alike(
                    (#[trigger] confirmed.response.items_added@[i])@.content,
                    request.input@[sent + i]@.content,
                ) by {
                    assert(alike(known[sent + i].content, input[sent + i].content));
                }
            }
        }
    }
    if !sent_match || !added_match {
        return None;
    }
    let start: usize = sent + added;
    if !allow_empty_delta && start == total {
        return None;
    }
    if confirmed.response.response_id.as_str().is_empty() {
        return None;
    }
    Some(
        IncrementalResponseRequest {
            previous_response_id: confirmed.response.response_id.clone(),
            input: copy_items_from(&request.input, start),
            previous_response_from_untraced_warmup: confirmed.from_untraced_warmup,
        },
    )
}

impl ResponsesLineage {
    /// The channel over which the pending request is answered.
    pub closed spec fn channel(&self) -> Option<
        tokio::sync::oneshot::Receiver<ResponsesLineageUpdate>,
    > {
        match self.pending {
            Some(pending) => Some(pending.receiver),
            None => None,
        }
    }

    /// There is a pending request that will not be answered, since its channel is spent.
    pub open spec fn awaits_nothing(&self) -> bool {
        self.channel() is Some && channel_spent(self.channel()->0)
    }

    /// Nothing is confirmed or pending.
    pub fn new() -> (lineage: ResponsesLineage)
        ensures
            lineage@ == (LineageData { confirmed: None, pending: None }),
    {
        ResponsesLineage { confirmed: None, pending: None }
    }

    /// Tells whether anything is confirmed or pending.
    pub fn has_state(&self) -> (any: bool)
        ensures
            any == (self@.confirmed is Some || self@.pending is Some),
    {
        self.confirmed.is_some() || self.pending.is_some()
    }

    /// Prepares a request that carries only what is new since the confirmed response, after taking
    /// note of what has become of the pending one by now. What has become of it, while its channel
    /// is not spent, is left open: that rests on whoever awaits the response, and when they are done.
    pub fn prepare_incremental_request(
        &mut self,
        request: &ResponsesApiRequest,
        allow_empty_delta: bool,
    ) -> (incremental: Option<IncrementalResponseRequest>)
        ensures
            exists|received: ReceivedData| #[trigger] settled(old(self)@, received) == final(self)@,
            old(self).awaits_nothing() ==> final(self)@ == settled(
                old(self)@,
                ReceivedData::Closed,
            ),
            final(self)@.pending is Some ==> final(self).channel() == old(self).channel()
                && !final(self).awaits_nothing(),
            incremental is Some <==> continued(
                final(self)@.confirmed,
                request@,
                allow_empty_delta,
            ) is Some,
            incremental matches Some(i) ==> continued(
                final(self)@.confirmed,
                request@,
                allow_empty_delta,
            ) == Some(i@),
    {
        self.promote_pending();
        match &self.confirmed {
            Some(confirmed) => continue_response(confirmed, request, allow_empty_delta),
            None => None,
        }
    }

    /// Takes note of a request whose response is awaited. It takes the place of an earlier one.
    pub fn record_pending(
        &mut self,
        request: ResponsesApiRequest,
        receiver: tokio::sync::oneshot::Receiver<ResponsesLineageUpdate>,
        from_untraced_warmup: bool,
    )
        ensures
            final(self)@ == (LineageData {
                pending: Some(PendingData { request: request@, from_untraced_warmup }),
                ..old(self)@
            }),
            final(self).channel() == Some(receiver),
    {
        self.pending = Some(PendingResponse { request, receiver, from_untraced_warmup });
    }

    /// Forgets everything.
    pub fn clear(&mut self)
        ensures
            final(self)@ == (LineageData { confirmed: None, pending: None }),
    {
        self.confirmed = None;
        self.pending = None;
    }

    /// Takes note of what has become of the pending request by now.
    fn promote_pending(&mut self)
        ensures
            exists|received: ReceivedData| #[trigger] settled(old(self)@, received) == final(self)@,
            old(self).awaits_nothing() ==> final(self)@ == settled(
                old(self)@,
                ReceivedData::Closed,
            ),
            final(self)@.pending is Some ==> final(self).channel() == old(self).channel()
                && !final(self).awaits_nothing(),
    {
        let received = match &mut self.pending {
            Some(pending) => pending.poll(),
            None => Received::Empty,
        };
        let ghost found = received@;
        self.settle(received);
        assert(settled(old(self)@, found) == self@);
    }

    /// Takes note of what was found of the pending request, if there is one.
    pub fn settle(&mut self, received: Received)
        ensures
            final(self)@ == settled(old(self)@, received@),
            received@ is Empty ==> final(self).channel() == old(self).channel(),
    {
        match self.pending.take() {
            None => {},
            Some(pending) => match received {
                Received::Completed { response } => {
                    self.confirmed = Some(
                        ConfirmedResponse {
                            request: pending.request,
                            response,
                            from_untraced_warmup: pending.from_untraced_warmup,
                        },
                    );
                },
                Received::PreviousResponseNotFound => {
                    self.confirmed = None;
                },
                Received::Empty => {
                    self.pending = Some(pending);
                },
                Received::Closed => {},
            },
        }
    }
}

impl PendingResponse {
    /// Asks what has become of this request by now. It is answered once, and where nothing has come
    /// yet it stays as it was.
    fn poll(&mut self) -> (received: Received)
        ensures
            final(self)@ == old(self)@,
            channel_spent(final(self).receiver) <==> !(received is Empty),
            channel_spent(old(self).receiver) ==> received is Closed,
            received is Empty ==> *final(self) == *old(self),
    {
        poll_update(&mut self.receiver)
    }
}

/// What the server knows and what the prepared request carries make up the whole input, by what
/// the items say.
pub proof fn law_delta_completes_the_known_items(
    confirmed: ConfirmedData,
    request: LineageRequest,
    allow_empty_delta: bool,
    incremental: IncrementalData,
    i: int,
)
    requires
        continued(Some(confirmed), request, allow_empty_delta) == Some(incremental),
        0 <= i < request.input.len(),
    ensures
        known_items(confirmed).len() + incremental.input.len() == request.input.len(),
        i < known_items(confirmed).len() ==> alike(
            known_items(confirmed)[i].content,
            request.input[i].content,
        ),
        i >= known_items(confirmed).len() ==> incremental.input[i - known_items(confirmed).len()]
            == request.input[i],
{
}

/// The confirmed response changes only where the pending request is complete, or where the server
/// has lost it: while nothing is known, and where nothing will be, it stays.
pub proof fn law_pending_does_not_replace_confirmed(lineage: LineageData, received: ReceivedData)
    requires
        received is Empty || received is Closed,
    ensures
        settled(lineage, received).confirmed == lineage.confirmed,
{
}

/// After the server has lost a response, nothing continues it.
pub proof fn law_lost_responses_are_not_continued(
    lineage: LineageData,
    request: LineageRequest,
    allow_empty_delta: bool,
)
    requires
        lineage.pending is Some,
    ensures
        continued(
            settled(lineage, ReceivedData::PreviousResponseNotFound).confirmed,
            request,
            allow_empty_delta,
        ) is None,
{
}

} // verus!
