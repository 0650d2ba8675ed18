//! What holds of every request for an image, however the outside work turns out.
use vstd::prelude::*;

#[allow(unused_imports)]
use crate::config::{AppConfigView, ParamsView, ServiceView};
#[allow(unused_imports)]
use crate::fetch::Step;
#[allow(unused_imports)]
use crate::object::ObjectView;
#[allow(unused_imports)]
use crate::response::{BodyView, ResponseView};
#[allow(unused_imports)]
use crate::session::{
    ActionView, Attempt, EventView, Fault, Format, JobView, SessionView, Stage,
};
#[allow(unused_imports)]
use crate::{config, fetch, headers, names, response, session, steps, storage, text};

verus! {

/// The width that a client asks for, zero where it asks for none.
pub open spec fn width_of(params: ParamsView) -> u32 {
    if params.width is Some {
        params.width->0
    } else {
        0
    }
}

/// The file that holds a request's object as the service sent it.
pub open spec fn base_file(cfg: AppConfigView, s: SessionView) -> Seq<char> {
    cfg.storage_path + "/base/"@ + s.object.service.name + "/"@ + s.object.name
}

/// The file that holds a request's object in the width asked for.
pub open spec fn width_file(cfg: AppConfigView, s: SessionView) -> Seq<char> {
    cfg.storage_path + "/mod/"@ + s.object.service.name + "/"@ + text::decimal(s.scale as nat)
        + "/"@ + s.object.name
}

/// The file that holds the variant of a request's object that was made last.
pub open spec fn latest_file(cfg: AppConfigView, s: SessionView) -> Seq<char> {
    cfg.storage_path + "/mod/latest/"@ + s.object.service.name + "/"@ + s.object.name
}

/// The client is sent these bytes under this media type, to be kept for as long as the service's
/// settings say, or a year where they say nothing.
pub open spec fn delivers(
    action: ActionView,
    content_type: Seq<char>,
    service: ServiceView,
    bytes: Seq<u8>,
) -> bool {
    &&& action matches ActionView::Reply(reply)
    &&& reply.status == 200
    &&& reply.content_type == Some(content_type)
    &&& service.cache matches Some(cache) ==> reply.max_age == Some(cache.max_age)
    &&& service.cache is None ==> reply.max_age == Some(31536000u32)
    &&& reply.body == BodyView::Bytes(bytes)
}

/// The client is told that the service does not deliver.
pub open spec fn gives_up(action: ActionView) -> bool {
    &&& action matches ActionView::Reply(reply)
    &&& reply.status == 500
    &&& reply.content_type is None
    &&& reply.max_age is None
    &&& reply.body is Empty
}

/// The client is told why its request is not served.
pub open spec fn refuses(reply: ResponseView, reason: Seq<char>) -> bool {
    &&& reply.status == 400
    &&& reply.content_type == Some("text/plain"@)
    &&& reply.max_age is None
    &&& reply.body == BodyView::Text(reason)
}

/// The service is asked for the request's object, below its endpoint, within the time and up to
/// the size that are configured.
pub open spec fn asks_the_service(action: ActionView, cfg: AppConfigView, s: SessionView) -> bool {
    &&& action matches ActionView::Download(request)
    &&& request.url == s.object.service.endpoint + "/"@ + names::unflattened(s.object.name)
    &&& request.timeout_secs == cfg.req_timeout
    &&& request.max_body_bytes == cfg.max_body_size_bytes
}

/// A status by which a service does not deliver.
pub open spec fn refused(status: u16) -> bool {
    status < 200 || status > 299
}

/// A media type that no service sends as an image.
pub open spec fn is_document(content_type: Seq<char>) -> bool {
    content_type == "text/html"@ || content_type == "text/plain"@
}

/// The object is one that is never processed.
pub open spec fn is_skipped(cfg: AppConfigView, name: Seq<char>) -> bool {
    cfg.skip_list matches Some(list) && exists|i: int|
        0 <= i < list.len() && #[trigger] list[i] == name
}

/// An objection that points at damage.
pub open spec fn speaks_of_damage(message: Seq<char>) -> bool {
    steps::holds(message, "buffer"@) || steps::holds(message, "unexpected EOF"@)
}

/// Where a request stands after a sequence of outcomes.
pub open spec fn run(cfg: AppConfigView, first: Step, events: Seq<EventView>) -> Step
    decreases events.len(),
{
    if events.len() == 0 {
        first
    } else {
        run(cfg, first, events.drop_last()).0.next(cfg, events.last())
    }
}

/// Each outcome is one of the work that the request waited for.
pub open spec fn follows(cfg: AppConfigView, first: Step, events: Seq<EventView>) -> bool
    decreases events.len(),
{
    events.len() > 0 ==> {
        &&& follows(cfg, first, events.drop_last())
        &&& session::expected(run(cfg, first, events.drop_last()).0.stage, events.last())
    }
}

/// How many times the service was asked on the way.
pub open spec fn downloads(cfg: AppConfigView, first: Step, events: Seq<EventView>) -> nat
    decreases events.len(),
{
    let now: nat = if run(cfg, first, events).1 is Download {
        1
    } else {
        0
    };
    if events.len() == 0 {
        now
    } else {
        downloads(cfg, first, events.drop_last()) + now
    }
}

/// What the service answered on the way: for each answer, why the object was asked for and the
/// status.
pub open spec fn answers(cfg: AppConfigView, first: Step, events: Seq<EventView>) -> Seq<
    (Attempt, u16),
>
    decreases events.len(),
{
    if events.len() == 0 {
        seq![]
    } else {
        with_answer(
            answers(cfg, first, events.drop_last()),
            run(cfg, first, events.drop_last()).0.stage,
            events.last(),
        )
    }
}

/// The answers so far, and the one that has just come, if the outcome is one.
pub open spec fn with_answer(earlier: Seq<(Attempt, u16)>, stage: Stage, event: EventView) -> Seq<
    (Attempt, u16),
> {
    match (stage, event) {
        (Stage::Fetching(attempt), EventView::Received { status, .. }) => earlier.push(
            (attempt, status),
        ),
        (Stage::Fetching(attempt), EventView::Unread { status }) => earlier.push((attempt, status)),
        _ => earlier,
    }
}

/// The service refused the object and refused it again.
pub open spec fn refused_twice(answers: Seq<(Attempt, u16)>) -> bool {
    &&& answers.len() == 2
    &&& answers[0].0 == Attempt::First
    &&& refused(answers[0].1)
    &&& answers[1].0 == Attempt::Retry
    &&& refused(answers[1].1)
}

/// The service refused what was to replace a document that was about to be delivered as it is.
pub open spec fn refused_replacement(answers: Seq<(Attempt, u16)>) -> bool {
    &&& answers.len() > 0
    &&& answers.last().0 == Attempt::Unscaled
    &&& refused(answers.last().1)
}

/// The most outcomes that a stage can still wait for.
pub open spec fn steps_left(stage: Stage) -> nat {
    match stage {
        Stage::Preparing => 11,
        Stage::ProbingVariant => 10,
        Stage::ProbingBase => 9,
        Stage::Fetching(Attempt::First) => 8,
        Stage::Storing(Attempt::First) => 7,
        Stage::Fetching(Attempt::Retry) => 6,
        Stage::ReadingBase => 6,
        Stage::Storing(Attempt::Retry) => 5,
        Stage::GuessingBase => 5,
        Stage::Rasterizing => 4,
        Stage::Scaling => 3,
        Stage::Fetching(_) => 2,
        Stage::SavingVariant => 2,
        Stage::ReadingVariant => 2,
        Stage::Storing(_) => 1,
        Stage::GuessingVariant => 1,
        Stage::GuessingFormat => 1,
        Stage::SavingLatest => 1,
        Stage::Finished => 0,
    }
}

/// The most downloads that a stage can still lead to.
pub open spec fn downloads_left(stage: Stage) -> nat {
    match stage {
        Stage::Preparing | Stage::ProbingVariant | Stage::ProbingBase => 3,
        Stage::Fetching(Attempt::First) | Stage::Storing(Attempt::First) => 2,
        Stage::Fetching(Attempt::Retry) | Stage::Storing(Attempt::Retry) => 1,
        Stage::ReadingBase | Stage::GuessingBase | Stage::Rasterizing | Stage::Scaling => 1,
        _ => 0,
    }
}

/// The stages in which a file from storage is looked for or read in place of a download.
pub open spec fn looks_in_storage(stage: Stage) -> bool {
    match stage {
        Stage::ProbingVariant | Stage::ReadingVariant | Stage::GuessingVariant => true,
        Stage::ProbingBase | Stage::ReadingBase | Stage::GuessingBase => true,
        _ => false,
    }
}

/// The stages in which a variant is made or kept.
pub open spec fn makes_variant(stage: Stage) -> bool {
    match stage {
        Stage::Scaling | Stage::SavingVariant | Stage::SavingLatest => true,
        _ => false,
    }
}

/// What a request of a given kind is about never changes.
pub open spec fn same_request(a: SessionView, b: SessionView) -> bool {
    &&& a.object.name == b.object.name
    &&& a.object.service == b.object.service
    &&& a.scale == b.scale
    &&& a.force == b.force
    &&& a.engine == b.engine
}

/// The work that a request needs done, stage by stage.
pub open spec fn fitting(cfg: AppConfigView, step: Step) -> bool {
    let s = step.0;
    match s.stage {
        Stage::Preparing => step.1 == ActionView::CreateDirs(
            seq![
                cfg.storage_path + "/base/"@ + s.object.service.name,
                cfg.storage_path + "/mod/latest/"@ + s.object.service.name,
                cfg.storage_path + "/mod/"@ + s.object.service.name + "/"@ + text::decimal(
                    s.scale as nat,
                ),
            ],
        ),
        Stage::ProbingVariant => step.1 == ActionView::Probe(width_file(cfg, s)),
        Stage::ReadingVariant => step.1 == ActionView::Read(width_file(cfg, s)),
        Stage::GuessingVariant => step.1 == ActionView::Guess(width_file(cfg, s)),
        Stage::ProbingBase => step.1 == ActionView::Probe(base_file(cfg, s)),
        Stage::ReadingBase => step.1 == ActionView::Read(base_file(cfg, s)),
        Stage::GuessingBase | Stage::GuessingFormat => step.1 == ActionView::Guess(
            base_file(cfg, s),
        ),
        Stage::Fetching(_) => asks_the_service(step.1, cfg, s) && s.object.response is None,
        Stage::Storing(_) => step.1 == (ActionView::StoreBase {
            path: base_file(cfg, s),
            data: s.object.data,
        }),
        Stage::Rasterizing => step.1 == ActionView::Rasterize(s.object.data),
        Stage::Scaling => step.1 is Scale,
        Stage::SavingVariant => step.1 == (ActionView::StoreVariant {
            path: width_file(cfg, s),
            data: s.pending,
        }) && s.pending != s.object.data,
        Stage::SavingLatest => step.1 == (ActionView::StoreVariant {
            path: latest_file(cfg, s),
            data: s.pending,
        }),
        Stage::Finished => match step.1 {
            ActionView::Reply(_) => {
                ||| gives_up(step.1) && (s.object.status matches Some(status) && refused(status))
                ||| exists|bytes: Seq<u8>| #[trigger] delivers(
                    step.1,
                    s.object.content_type,
                    s.object.service,
                    bytes,
                )
            },
            ActionView::Fail(_) => true,
            _ => false,
        },
    }
}

/// What holds after every step of a request that began as `first`.
spec fn sound(cfg: AppConfigView, first: SessionView, step: Step) -> bool {
    &&& same_request(first, step.0)
    &&& fitting(cfg, step)
    &&& first.force ==> !looks_in_storage(step.0.stage)
    &&& first.scale == 0 || is_skipped(cfg, first.object.name) ==> !makes_variant(step.0.stage)
}

#[verifier::spinoff_prover]
#[verifier::rlimit(40)]
proof fn next_is_sound(cfg: AppConfigView, first: SessionView, step: Step, event: EventView)
    requires
        sound(cfg, first, step),
        session::expected(step.0.stage, event),
    ensures
        sound(cfg, first, step.0.next(cfg, event)),
        steps_left(step.0.next(cfg, event).0.stage) < steps_left(step.0.stage),
        downloads_left(step.0.next(cfg, event).0.stage) + (if step.0.next(
            cfg,
            event,
        ).1 is Download {
            1nat
        } else {
            0nat
        }) <= downloads_left(step.0.stage),
{
    reveal_strlit("image/png");
    reveal_strlit("image/svg+xml");
    let name = first.object.name;
    assert(is_skipped(cfg, name) <==> cfg.skips(name)) by {
        if let Some(list) = cfg.skip_list {
            if list.contains(name) {
                let i = choose|i: int| 0 <= i < list.len() && list[i] == name;
                assert(list[i] == name);
            }
        }
    }
    let after = step.0.next(cfg, event);
    if let ActionView::Reply(reply) = after.1 {
        if let BodyView::Bytes(bytes) = reply.body {
            assert(delivers(after.1, after.0.object.content_type, after.0.object.service, bytes));
        }
    }
}

proof fn run_is_sound(
    cfg: AppConfigView,
    service: Seq<char>,
    image: Seq<char>,
    params: ParamsView,
    first: Step,
    events: Seq<EventView>,
)
    requires
        fetch::begin(cfg, service, image, params) == Ok::<Step, response::ResponseView>(first),
        follows(cfg, first, events),
    ensures
        sound(cfg, first.0, run(cfg, first, events)),
        events.len() + steps_left(run(cfg, first, events).0.stage) <= 11,
        downloads(cfg, first, events) + downloads_left(run(cfg, first, events).0.stage) <= 3,
    decreases events.len(),
{
    if events.len() > 0 {
        run_is_sound(cfg, service, image, params, first, events.drop_last());
        next_is_sound(cfg, first.0, run(cfg, first, events.drop_last()), events.last());
    }
}

/// A request is refused exactly when its service is not on the allow list or its width is not,
/// and is then answered at once with status 400 and the reason.
pub proof fn refusals_are_immediate(
    cfg: AppConfigView,
    service: Seq<char>,
    image: Seq<char>,
    params: ParamsView,
)
    ensures
        fetch::begin(cfg, service, image, params) is Err <==> {
            ||| forall|i: int| 0 <= i < cfg.services.len() ==> cfg.services[i].name != service
            ||| cfg.allowed_sizes matches Some(list) && forall|i: int|
                0 <= i < list.len() ==> #[trigger] list[i] != width_of(params) && width_of(params)
                    != 0
        },
        fetch::begin(cfg, service, image, params) matches Err(reply) ==> if forall|i: int|
            0 <= i < cfg.services.len() ==> cfg.services[i].name != service {
            refuses(reply, "Received endpoint not allowed!"@)
        } else {
            refuses(reply, "Scaling value not allowed!"@)
        },
{
    config::service_named_is_first(cfg.services, service);
    let width = width_of(params);
    assert(params.scale() == width);
    if let Some(list) = cfg.allowed_sizes {
        if list.contains(width) {
            let i = choose|i: int| 0 <= i < list.len() && list[i] == width;
            assert(list[i] == width);
        } else if width == 0 && list.len() > 0 {
            assert(list[0] != width);
        }
    }
}

/// While a request is served, the object's name and service, the width, and the client's other
/// wishes stay as they were.
pub proof fn requests_keep_their_subject(
    cfg: AppConfigView,
    service: Seq<char>,
    image: Seq<char>,
    params: ParamsView,
    first: Step,
    events: Seq<EventView>,
)
    requires
        fetch::begin(cfg, service, image, params) == Ok::<Step, response::ResponseView>(first),
        follows(cfg, first, events),
    ensures
        same_request(first.0, run(cfg, first, events).0),
        first.0.object.service.name == service,
        params.path is None ==> first.0.object.name == image,
        params.path matches Some(path) ==> first.0.object.name == image + "-_-"@
            + names::flattened(path),
        first.0.scale == width_of(params),
        first.0.force <==> params.force == Some(true),
        params.engine matches Some(engine) ==> first.0.engine == engine,
        params.engine is None ==> first.0.engine == 0,
        exists|i: int|
            0 <= i < cfg.services.len() && #[trigger] cfg.services[i] == first.0.object.service
                && forall|j: int| 0 <= j < i ==> (#[trigger] cfg.services[j]).name != service,
{
    run_is_sound(cfg, service, image, params, first, events);
    config::service_named_is_first(cfg.services, service);
}

/// Every request is over after at most eleven outcomes, and it is over exactly when the client
/// is answered or a fault is reported.
pub proof fn requests_end(
    cfg: AppConfigView,
    service: Seq<char>,
    image: Seq<char>,
    params: ParamsView,
    first: Step,
    events: Seq<EventView>,
)
    requires
        fetch::begin(cfg, service, image, params) == Ok::<Step, response::ResponseView>(first),
        follows(cfg, first, events),
    ensures
        events.len() <= 11,
        events.len() == 11 ==> run(cfg, first, events).0.stage == Stage::Finished,
        run(cfg, first, events).0.stage == Stage::Finished <==> (run(cfg, first, events).1 is Reply
            || run(cfg, first, events).1 is Fail),
{
    run_is_sound(cfg, service, image, params, first, events);
}

/// Whatever goes wrong, the service is asked for an object at most three times per request.
pub proof fn downloads_are_bounded(
    cfg: AppConfigView,
    service: Seq<char>,
    image: Seq<char>,
    params: ParamsView,
    first: Step,
    events: Seq<EventView>,
)
    requires
        fetch::begin(cfg, service, image, params) == Ok::<Step, response::ResponseView>(first),
        follows(cfg, first, events),
    ensures
        downloads(cfg, first, events) <= 3,
{
    run_is_sound(cfg, service, image, params, first, events);
}

/// Every work that a request needs done is the one its stage names, on the files of its own
/// object: what the service sent goes to the object's base path, and variants go to the path of
/// the width and to that of the latest one.
pub proof fn requests_touch_their_own_files(
    cfg: AppConfigView,
    service: Seq<char>,
    image: Seq<char>,
    params: ParamsView,
    first: Step,
    events: Seq<EventView>,
)
    requires
        fetch::begin(cfg, service, image, params) == Ok::<Step, response::ResponseView>(first),
        follows(cfg, first, events),
    ensures
        fitting(cfg, run(cfg, first, events)),
        run(cfg, first, events).1 matches ActionView::StoreBase { path, .. } ==> path
            == base_file(cfg, first.0),
        run(cfg, first, events).1 matches ActionView::StoreVariant { path, .. } ==> path
            == width_file(cfg, first.0) || path == latest_file(cfg, first.0),
        run(cfg, first, events).1 is Download ==> asks_the_service(
            run(cfg, first, events).1,
            cfg,
            first.0,
        ),
{
    run_is_sound(cfg, service, image, params, first, events);
}

/// A served request is answered either with an object, which carries the age configured for its
/// service, or with status 500, and that only when the service's last answer was no success.
pub proof fn answers_are_deliveries_or_upstream_failures(
    cfg: AppConfigView,
    service: Seq<char>,
    image: Seq<char>,
    params: ParamsView,
    first: Step,
    events: Seq<EventView>,
)
    requires
        fetch::begin(cfg, service, image, params) == Ok::<Step, response::ResponseView>(first),
        follows(cfg, first, events),
    ensures
        run(cfg, first, events).1 is Reply ==> {
            ||| exists|bytes: Seq<u8>| #[trigger] delivers(
                run(cfg, first, events).1,
                run(cfg, first, events).0.object.content_type,
                first.0.object.service,
                bytes,
            )
            ||| gives_up(run(cfg, first, events).1) && (run(
                cfg,
                first,
                events,
            ).0.object.status matches Some(status) && refused(status))
        },
{
    run_is_sound(cfg, service, image, params, first, events);
}

/// What the service has answered, stage by stage.
spec fn answered(step: Step, answers: Seq<(Attempt, u16)>) -> bool {
    let s = step.0;
    match s.stage {
        Stage::Fetching(Attempt::Retry) => answers.len() == 1 && answers[0].0 == Attempt::First
            && refused(answers[0].1),
        Stage::Storing(attempt) => {
            &&& answers.len() > 0
            &&& answers.last().0 == attempt
            &&& s.object.status == Some(answers.last().1)
            &&& attempt == Attempt::First ==> answers.len() == 1
            &&& attempt == Attempt::Retry ==> answers.len() == 2 && answers[0].0 == Attempt::First
                && refused(answers[0].1)
            &&& attempt == Attempt::Unscaled ==> s.scale == 0
            &&& attempt == Attempt::Document || attempt == Attempt::Damaged ==> s.scale != 0
            &&& attempt != Attempt::Retry && answers.len() > 1 ==> !refused(
                answers[answers.len() - 2].1,
            )
        },
        Stage::Fetching(attempt) => {
            &&& attempt == Attempt::First ==> answers.len() == 0
            &&& attempt == Attempt::Unscaled ==> s.scale == 0
            &&& attempt == Attempt::Document || attempt == Attempt::Damaged ==> s.scale != 0
            &&& answers.len() > 0 ==> !refused(answers.last().1)
        },
        Stage::Finished => step.1 matches ActionView::Reply(reply) ==> {
            &&& reply.status == 500 <==> refused_twice(answers) || s.scale == 0
                && refused_replacement(answers)
            &&& reply.status == 500 <==> answers.len() > 0 && refused(answers.last().1) && (s.scale
                == 0 || answers.len() == 2 && refused(answers[0].1))
            &&& reply.status == 500 <==> gives_up(step.1)
        },
        Stage::Rasterizing => answers.len() > 0 ==> !refused(answers.last().1),
        Stage::Scaling
        | Stage::GuessingFormat
        | Stage::SavingVariant
        | Stage::SavingLatest => s.scale != 0 && (answers.len() > 0 ==> !refused(
            answers.last().1,
        )),
        _ => answers.len() == 0,
    }
}

#[verifier::spinoff_prover]
#[verifier::rlimit(40)]
proof fn next_is_answered(
    cfg: AppConfigView,
    step: Step,
    event: EventView,
    earlier: Seq<(Attempt, u16)>,
)
    requires
        answered(step, earlier),
        session::expected(step.0.stage, event),
    ensures
        answered(step.0.next(cfg, event), with_answer(earlier, step.0.stage, event)),
{
}

proof fn run_is_answered(
    cfg: AppConfigView,
    service: Seq<char>,
    image: Seq<char>,
    params: ParamsView,
    first: Step,
    events: Seq<EventView>,
)
    requires
        fetch::begin(cfg, service, image, params) == Ok::<Step, response::ResponseView>(first),
        follows(cfg, first, events),
    ensures
        answered(run(cfg, first, events), answers(cfg, first, events)),
    decreases events.len(),
{
    if events.len() > 0 {
        let before = events.drop_last();
        run_is_answered(cfg, service, image, params, first, before);
        next_is_answered(
            cfg,
            run(cfg, first, before),
            events.last(),
            answers(cfg, first, before),
        );
    }
}

/// A served request is answered with status 500 exactly when the service refused the object twice
/// in a row, or the object was asked for without a width and the service refused what was to
/// replace a document. Told by the statuses alone: when the last answer is a refusal, and either
/// no width was asked for or it is the second of two refusals.
pub proof fn upstream_failures_are_exactly_these(
    cfg: AppConfigView,
    service: Seq<char>,
    image: Seq<char>,
    params: ParamsView,
    first: Step,
    events: Seq<EventView>,
)
    requires
        fetch::begin(cfg, service, image, params) == Ok::<Step, response::ResponseView>(first),
        follows(cfg, first, events),
    ensures
        run(cfg, first, events).1 matches ActionView::Reply(reply) ==> {
            &&& reply.status == 500 <==> {
                ||| refused_twice(answers(cfg, first, events))
                ||| width_of(params) == 0 && refused_replacement(answers(cfg, first, events))
            }
            &&& reply.status == 500 <==> ({
                let given = answers(cfg, first, events);
                &&& given.len() > 0
                &&& refused(given.last().1)
                &&& width_of(params) == 0 || given.len() == 2 && refused(given[0].1)
            })
            &&& reply.status == 500 <==> gives_up(run(cfg, first, events).1)
        },
{
    run_is_sound(cfg, service, image, params, first, events);
    run_is_answered(cfg, service, image, params, first, events);
}

/// The bytes that came in last: of a file, of the service's answer, or of an image that was made.
pub open spec fn last_bytes(events: Seq<EventView>) -> Seq<u8>
    decreases events.len(),
{
    if events.len() == 0 {
        seq![]
    } else {
        match events.last() {
            EventView::Contents(data) => data,
            EventView::Received { body, .. } => body,
            EventView::Image(image) => image,
            _ => last_bytes(events.drop_last()),
        }
    }
}

/// Where the bytes that came in last are, stage by stage.
spec fn carries(step: Step, bytes: Seq<u8>) -> bool {
    let s = step.0;
    match s.stage {
        Stage::Storing(_)
        | Stage::GuessingBase
        | Stage::Rasterizing
        | Stage::Scaling
        | Stage::GuessingFormat => s.object.data == bytes,
        Stage::GuessingVariant | Stage::SavingVariant | Stage::SavingLatest => s.pending == bytes,
        Stage::Finished => step.1 matches ActionView::Reply(reply) ==> reply.status == 200
            ==> reply.body == BodyView::Bytes(bytes),
        _ => true,
    }
}

/// Bytes pass through unchanged: whatever is stored, converted, scaled or delivered is, byte for
/// byte, what came in last.
pub proof fn bytes_pass_through_unchanged(
    cfg: AppConfigView,
    service: Seq<char>,
    image: Seq<char>,
    params: ParamsView,
    first: Step,
    events: Seq<EventView>,
)
    requires
        fetch::begin(cfg, service, image, params) == Ok::<Step, response::ResponseView>(first),
        follows(cfg, first, events),
    ensures
        match run(cfg, first, events).1 {
            ActionView::StoreBase { data, .. } => data == last_bytes(events),
            ActionView::StoreVariant { data, .. } => data == last_bytes(events),
            ActionView::Rasterize(data) => data == last_bytes(events),
            ActionView::Scale(JobView::Static { data, .. }) => data == last_bytes(events),
            ActionView::Scale(JobView::Png { data, .. }) => data == last_bytes(events),
            ActionView::Reply(reply) => reply.status == 200 ==> reply.body == BodyView::Bytes(
                last_bytes(events),
            ),
            _ => true,
        },
{
    run_is_sound(cfg, service, image, params, first, events);
    run_carries(cfg, service, image, params, first, events);
}

#[verifier::spinoff_prover]
#[verifier::rlimit(40)]
proof fn run_carries(
    cfg: AppConfigView,
    service: Seq<char>,
    image: Seq<char>,
    params: ParamsView,
    first: Step,
    events: Seq<EventView>,
)
    requires
        fetch::begin(cfg, service, image, params) == Ok::<Step, response::ResponseView>(first),
        follows(cfg, first, events),
    ensures
        carries(run(cfg, first, events), last_bytes(events)),
        run(cfg, first, events).0.stage == Stage::Scaling ==> scaler_is_right(
            cfg,
            run(cfg, first, events),
        ),
    decreases events.len(),
{
    if events.len() > 0 {
        run_carries(cfg, service, image, params, first, events.drop_last());
        reveal_strlit("image/png");
        reveal_strlit("image/svg+xml");
    }
}

/// A request at the scaler hands on the width asked for, and the work that the object's media type
/// calls for: of PNG images by the engine, of animations and videos from the stored object to the
/// file of the width.
pub open spec fn scaler_is_right(cfg: AppConfigView, step: Step) -> bool {
    let s = step.0;
    let content_type = s.object.content_type;
    &&& step.1 matches ActionView::Scale(job)
    &&& match job {
        JobView::Static { data, scale, format } => {
            &&& data == s.object.data
            &&& scale == s.scale
            &&& match format {
                Format::Jpeg => content_type == "image/jpeg"@ || content_type == "image/jpg"@,
                Format::Png => content_type == "image/png"@ && s.engine == 1,
                Format::WebP => content_type == "image/webp"@,
            }
        },
        JobView::Png { data, scale } => {
            &&& data == s.object.data
            &&& scale == s.scale
            &&& content_type == "image/png"@
            &&& s.engine != 1
        },
        JobView::Gif { source, target, scale } => {
            &&& source == base_file(cfg, s)
            &&& target == width_file(cfg, s)
            &&& scale == s.scale
            &&& content_type == "image/gif"@
        },
        JobView::Mp4 { source, target, scale } => {
            &&& source == base_file(cfg, s)
            &&& target == width_file(cfg, s)
            &&& scale == s.scale
            &&& content_type == "image/gif"@
        },
    }
}

/// Whenever a request waits for a scaler, the scaler was given the client's width and engine and
/// the work that the media type calls for; and that is never so without a width.
pub proof fn scalers_are_given_the_width(
    cfg: AppConfigView,
    service: Seq<char>,
    image: Seq<char>,
    params: ParamsView,
    first: Step,
    events: Seq<EventView>,
)
    requires
        fetch::begin(cfg, service, image, params) == Ok::<Step, response::ResponseView>(first),
        follows(cfg, first, events),
    ensures
        run(cfg, first, events).1 is Scale <==> run(cfg, first, events).0.stage == Stage::Scaling,
        run(cfg, first, events).1 is Scale ==> {
            &&& scaler_is_right(cfg, run(cfg, first, events))
            &&& run(cfg, first, events).0.scale == width_of(params)
            &&& width_of(params) != 0
            &&& run(cfg, first, events).0.engine == (if params.engine is Some {
                params.engine->0
            } else {
                0
            })
        },
{
    run_is_sound(cfg, service, image, params, first, events);
    run_carries(cfg, service, image, params, first, events);
}

/// The outcomes that a request waits for are those of the work that it needs done, and none once
/// it is over.
pub proof fn outcomes_are_those_of_the_work(
    cfg: AppConfigView,
    service: Seq<char>,
    image: Seq<char>,
    params: ParamsView,
    first: Step,
    events: Seq<EventView>,
    event: EventView,
)
    requires
        fetch::begin(cfg, service, image, params) == Ok::<Step, response::ResponseView>(first),
        follows(cfg, first, events),
    ensures
        follows(cfg, first, events.push(event)) <==> match run(cfg, first, events).1 {
            ActionView::CreateDirs(_) => event is Done || event is Failed,
            ActionView::Probe(_) => event is Exists,
            ActionView::Read(_) => event is Contents || event is Failed,
            ActionView::Guess(_) => event is Guessed || event is Failed,
            ActionView::Download(_) => event is Received || event is Unread || event is Failed,
            ActionView::StoreBase { .. } => event is Done || event is Failed,
            ActionView::StoreVariant { .. } => event is Done || event is Failed,
            ActionView::Rasterize(_) => event is Image || event is Failed,
            ActionView::Scale(_) => event is Image || event is Rejected,
            ActionView::Reply(_) => false,
            ActionView::Fail(_) => false,
        },
{
    run_is_sound(cfg, service, image, params, first, events);
    run_of_push(cfg, first, events, event);
}

/// The outcomes by which an object turns out to be in storage, though not in the width that is
/// asked for, if one is.
pub open spec fn object_found(width: u32, data: Seq<u8>, guess: Seq<char>) -> Seq<EventView> {
    let probed = if width == 0 {
        seq![EventView::Done]
    } else {
        seq![EventView::Done, EventView::Exists(false)]
    };
    probed.push(EventView::Exists(true)).push(EventView::Contents(data)).push(
        EventView::Guessed(guess),
    )
}

/// An object that is in storage is read from there for every width, unless the client insists on a
/// download.
pub proof fn stored_objects_are_read_for_every_width(
    cfg: AppConfigView,
    service: Seq<char>,
    image: Seq<char>,
    params: ParamsView,
    first: Step,
    data: Seq<u8>,
    guess: Seq<char>,
)
    requires
        fetch::begin(cfg, service, image, params) == Ok::<Step, response::ResponseView>(first),
        params.force != Some(true),
    ensures
        ({
            let found = object_found(width_of(params), data, guess);
            let guessing = found.drop_last();
            let reading = guessing.drop_last();
            let after = run(cfg, first, found).0;
            &&& follows(cfg, first, found)
            &&& run(cfg, first, reading).1 == ActionView::Read(base_file(cfg, first.0))
            &&& run(cfg, first, guessing).1 == ActionView::Guess(base_file(cfg, first.0))
            &&& run(cfg, first, guessing).0.stage == Stage::GuessingBase
            &&& downloads(cfg, first, guessing) == 0
            &&& after.object.data == data
            &&& after.object.status is None
            &&& after.object.content_type == if run(cfg, first, found).1 is Scale && guess
                == "video/mp4"@ {
                "image/gif"@
            } else {
                guess
            }
        }),
{
    let width = width_of(params);
    assert(params.scale() == width);
    let none = Seq::<EventView>::empty();
    let done = none.push(EventView::Done);
    let probed = if width == 0 {
        done
    } else {
        done.push(EventView::Exists(false))
    };
    let reading = probed.push(EventView::Exists(true));
    let guessing = reading.push(EventView::Contents(data));
    let found = guessing.push(EventView::Guessed(guess));
    assert(found =~= object_found(width, data, guess));
    assert(found.drop_last() =~= guessing);
    assert(guessing.drop_last() =~= reading);
    assert(reading.drop_last() =~= probed);
    assert(done.drop_last() =~= none);
    run_of_push(cfg, first, none, EventView::Done);
    assert(downloads(cfg, first, none) == 0);
    assert(downloads(cfg, first, done) == 0);
    if width != 0 {
        run_of_push(cfg, first, done, EventView::Exists(false));
        assert(probed.drop_last() =~= done);
        assert(downloads(cfg, first, probed) == 0);
    }
    run_of_push(cfg, first, probed, EventView::Exists(true));
    assert(downloads(cfg, first, reading) == 0);
    run_of_push(cfg, first, reading, EventView::Contents(data));
    assert(downloads(cfg, first, guessing) == 0);
    run_of_push(cfg, first, guessing, EventView::Guessed(guess));
    steps::media_types_differ();
}

/// The stages in which an object is worked on that is at hand.
spec fn works_on_object(stage: Stage) -> bool {
    match stage {
        Stage::Rasterizing | Stage::Scaling | Stage::GuessingFormat => true,
        Stage::SavingVariant | Stage::SavingLatest | Stage::Finished => true,
        _ => false,
    }
}

/// While an object is served from storage, the service is not asked, however the work on it turns
/// out, as long as the object is no document and no scaler speaks of damage.
pub proof fn stored_objects_spare_the_service(
    cfg: AppConfigView,
    service: Seq<char>,
    image: Seq<char>,
    params: ParamsView,
    first: Step,
    data: Seq<u8>,
    guess: Seq<char>,
    later: Seq<EventView>,
)
    requires
        fetch::begin(cfg, service, image, params) == Ok::<Step, response::ResponseView>(first),
        params.force != Some(true),
        !is_document(guess),
        follows(cfg, first, object_found(width_of(params), data, guess) + later),
        forall|i: int|
            0 <= i < later.len() ==> (#[trigger] later[i] matches EventView::Rejected(message)
                ==> !speaks_of_damage(message)),
    ensures
        downloads(cfg, first, object_found(width_of(params), data, guess) + later) == 0,
{
    spared(cfg, service, image, params, first, data, guess, later);
}

#[verifier::spinoff_prover]
#[verifier::rlimit(40)]
proof fn spared(
    cfg: AppConfigView,
    service: Seq<char>,
    image: Seq<char>,
    params: ParamsView,
    first: Step,
    data: Seq<u8>,
    guess: Seq<char>,
    later: Seq<EventView>,
)
    requires
        fetch::begin(cfg, service, image, params) == Ok::<Step, response::ResponseView>(first),
        params.force != Some(true),
        !is_document(guess),
        follows(cfg, first, object_found(width_of(params), data, guess) + later),
        forall|i: int|
            0 <= i < later.len() ==> (#[trigger] later[i] matches EventView::Rejected(message)
                ==> !speaks_of_damage(message)),
    ensures
        downloads(cfg, first, object_found(width_of(params), data, guess) + later) == 0,
        works_on_object(
            run(cfg, first, object_found(width_of(params), data, guess) + later).0.stage,
        ),
    decreases later.len(),
{
    let found = object_found(width_of(params), data, guess);
    let events = found + later;
    steps::media_types_differ();
    if later.len() == 0 {
        assert(events =~= found);
        let guessing = found.drop_last();
        stored_objects_are_read_for_every_width(
            cfg,
            service,
            image,
            params,
            first,
            data,
            guess,
        );
        assert(guessing.push(EventView::Guessed(guess)) =~= found);
        run_of_push(cfg, first, guessing, EventView::Guessed(guess));
    } else {
        let earlier = later.drop_last();
        assert(events.drop_last() =~= found + earlier);
        assert(events.last() == later.last());
        assert forall|i: int| 0 <= i < earlier.len() implies (
        #[trigger] earlier[i] matches EventView::Rejected(message) ==> !speaks_of_damage(
            message,
        )) by {
            assert(earlier[i] == later[i]);
        }
        spared(cfg, service, image, params, first, data, guess, earlier);
        run_is_sound(cfg, service, image, params, first, found + earlier);
        let event = later[later.len() - 1];
        if let EventView::Rejected(message) = event {
            steps::word_occurs(message, "buffer"@);
            steps::word_occurs(message, "unexpected EOF"@);
        }
    }
}

/// A client that insists on a download never gets what storage holds: no file is looked for or
/// read before the service is asked.
pub proof fn forced_requests_do_not_look_in_storage(
    cfg: AppConfigView,
    service: Seq<char>,
    image: Seq<char>,
    params: ParamsView,
    first: Step,
    events: Seq<EventView>,
)
    requires
        fetch::begin(cfg, service, image, params) == Ok::<Step, response::ResponseView>(first),
        follows(cfg, first, events),
        params.force == Some(true),
    ensures
        !(run(cfg, first, events).1 is Probe),
        !(run(cfg, first, events).1 is Read),
        events.len() == 1 && events[0] is Done ==> asks_the_service(
            run(cfg, first, events).1,
            cfg,
            first.0,
        ),
{
    run_is_sound(cfg, service, image, params, first, events);
    if events.len() == 1 && events[0] is Done {
        assert(run(cfg, first, events.drop_last()) == first);
    }
}

/// Objects asked for without a width, and objects on the skip list, are never scaled, and no
/// variant of them is written.
pub proof fn unscaled_and_skipped_objects_stay_unprocessed(
    cfg: AppConfigView,
    service: Seq<char>,
    image: Seq<char>,
    params: ParamsView,
    first: Step,
    events: Seq<EventView>,
)
    requires
        fetch::begin(cfg, service, image, params) == Ok::<Step, response::ResponseView>(first),
        follows(cfg, first, events),
        width_of(params) == 0 || is_skipped(cfg, first.0.object.name),
    ensures
        !(run(cfg, first, events).1 is Scale),
        !(run(cfg, first, events).1 is StoreVariant),
{
    run_is_sound(cfg, service, image, params, first, events);
}

/// Outcomes one after the other.
proof fn run_of_push(cfg: AppConfigView, first: Step, events: Seq<EventView>, event: EventView)
    ensures
        run(cfg, first, events.push(event)) == run(cfg, first, events).0.next(cfg, event),
        follows(cfg, first, events.push(event)) <==> follows(cfg, first, events)
            && session::expected(run(cfg, first, events).0.stage, event),
{
    assert(events.push(event).drop_last() =~= events);
}

/// A variant that is in storage is delivered from there, with the media type that is guessed for
/// it, and the service is not asked.
pub proof fn stored_variants_are_delivered(
    cfg: AppConfigView,
    service: Seq<char>,
    image: Seq<char>,
    params: ParamsView,
    first: Step,
    data: Seq<u8>,
    guess: Seq<char>,
)
    requires
        fetch::begin(cfg, service, image, params) == Ok::<Step, response::ResponseView>(first),
        width_of(params) != 0,
        params.force != Some(true),
    ensures
        ({
            let probed = seq![EventView::Done];
            let read = probed.push(EventView::Exists(true));
            let all = read.push(EventView::Contents(data)).push(EventView::Guessed(guess));
            &&& follows(cfg, first, all)
            &&& run(cfg, first, probed).1 == ActionView::Probe(width_file(cfg, first.0))
            &&& run(cfg, first, read).1 == ActionView::Read(width_file(cfg, first.0))
            &&& delivers(run(cfg, first, all).1, guess, first.0.object.service, data)
            &&& downloads(cfg, first, all) == 0
        }),
{
    let none = Seq::<EventView>::empty();
    let probed = seq![EventView::Done];
    let read = probed.push(EventView::Exists(true));
    let loaded = read.push(EventView::Contents(data));
    let all = loaded.push(EventView::Guessed(guess));
    assert(probed =~= none.push(EventView::Done));
    run_of_push(cfg, first, none, EventView::Done);
    run_of_push(cfg, first, probed, EventView::Exists(true));
    run_of_push(cfg, first, read, EventView::Contents(data));
    run_of_push(cfg, first, loaded, EventView::Guessed(guess));
    assert(probed.drop_last() =~= none);
    assert(read.drop_last() =~= probed);
    assert(loaded.drop_last() =~= read);
    assert(all.drop_last() =~= loaded);
    assert(downloads(cfg, first, none) == 0);
    assert(downloads(cfg, first, probed) == 0);
    assert(downloads(cfg, first, read) == 0);
    assert(downloads(cfg, first, loaded) == 0);
}

/// Once a variant is to be written, the same bytes are written to the path of the width and to
/// that of the latest variant, and are what the client gets.
pub proof fn written_variants_are_what_the_client_gets(
    cfg: AppConfigView,
    service: Seq<char>,
    image: Seq<char>,
    params: ParamsView,
    first: Step,
    events: Seq<EventView>,
)
    requires
        fetch::begin(cfg, service, image, params) == Ok::<Step, response::ResponseView>(first),
        follows(cfg, first, events),
        run(cfg, first, events).0.stage == Stage::SavingVariant,
    ensures
        ({
            let s = run(cfg, first, events).0;
            let second = events.push(EventView::Done);
            let third = second.push(EventView::Done);
            &&& run(cfg, first, events).1 == (ActionView::StoreVariant {
                path: width_file(cfg, first.0),
                data: s.pending,
            })
            &&& run(cfg, first, second).1 == (ActionView::StoreVariant {
                path: latest_file(cfg, first.0),
                data: s.pending,
            })
            &&& follows(cfg, first, third)
            &&& delivers(run(cfg, first, third).1, s.object.content_type, first.0.object.service, s.pending)
        }),
{
    run_is_sound(cfg, service, image, params, first, events);
    run_of_push(cfg, first, events, EventView::Done);
    run_of_push(cfg, first, events.push(EventView::Done), EventView::Done);
}

/// The file that a request writes its variant to is the one that the next request for the same
/// object and width looks for; where that finds what was written, the client gets it.
pub proof fn written_variants_are_found_again(
    cfg: AppConfigView,
    service: Seq<char>,
    image: Seq<char>,
    params: ParamsView,
    first: Step,
    events: Seq<EventView>,
    again: ParamsView,
    second: Step,
    guess: Seq<char>,
)
    requires
        fetch::begin(cfg, service, image, params) == Ok::<Step, response::ResponseView>(first),
        follows(cfg, first, events),
        run(cfg, first, events).0.stage == Stage::SavingVariant,
        fetch::begin(cfg, service, image, again) == Ok::<Step, response::ResponseView>(second),
        again.path == params.path,
        width_of(again) == width_of(params),
        again.force != Some(true),
    ensures
        ({
            let data = run(cfg, first, events).0.pending;
            let probed = seq![EventView::Done];
            let read = probed.push(EventView::Exists(true));
            let all = read.push(EventView::Contents(data)).push(EventView::Guessed(guess));
            &&& run(cfg, first, events).1 matches ActionView::StoreVariant { path, data: written }
            &&& written == data
            &&& run(cfg, second, probed).1 == ActionView::Probe(path)
            &&& run(cfg, second, read).1 == ActionView::Read(path)
            &&& follows(cfg, second, all)
            &&& delivers(run(cfg, second, all).1, guess, second.0.object.service, data)
        }),
{
    run_is_sound(cfg, service, image, params, first, events);
    assert(width_of(params) != 0);
    let data = run(cfg, first, events).0.pending;
    stored_variants_are_delivered(cfg, service, image, again, second, data, guess);
    written_variants_are_what_the_client_gets(cfg, service, image, params, first, events);
}

/// What a service sends is written, byte by byte, to the object's base path, whatever its status.
pub proof fn received_objects_are_stored(
    cfg: AppConfigView,
    service: Seq<char>,
    image: Seq<char>,
    params: ParamsView,
    first: Step,
    events: Seq<EventView>,
    status: u16,
    contents: Map<Seq<char>, Seq<Seq<u8>>>,
    body: Seq<u8>,
)
    requires
        fetch::begin(cfg, service, image, params) == Ok::<Step, response::ResponseView>(first),
        follows(cfg, first, events),
        run(cfg, first, events).1 is Download,
    ensures
        ({
            let event = EventView::Received { status, headers: contents, body };
            let step = run(cfg, first, events.push(event));
            &&& follows(cfg, first, events.push(event))
            &&& match headers::content_type_of(contents) {
                Ok(text) => {
                    &&& step.1 == (ActionView::StoreBase {
                        path: base_file(cfg, first.0),
                        data: body,
                    })
                    &&& step.0.object.data == body
                    &&& step.0.object.content_type == text
                    &&& step.0.object.status == Some(status)
                },
                Err(error) => step.1 == ActionView::Fail(Fault::ContentType(error)),
            }
        }),
{
    run_is_sound(cfg, service, image, params, first, events);
    run_of_push(cfg, first, events, EventView::Received { status, headers: contents, body });
}

/// An object in storage is delivered from there to a client that asks for it as it is and does
/// not insist, unless what is stored is a drawing or a document.
pub proof fn stored_objects_are_delivered(
    cfg: AppConfigView,
    service: Seq<char>,
    image: Seq<char>,
    params: ParamsView,
    first: Step,
    data: Seq<u8>,
    guess: Seq<char>,
)
    requires
        fetch::begin(cfg, service, image, params) == Ok::<Step, response::ResponseView>(first),
        width_of(params) == 0,
        params.force != Some(true),
        guess != "image/svg+xml"@,
        !is_document(guess),
    ensures
        ({
            let probed = seq![EventView::Done];
            let read = probed.push(EventView::Exists(true));
            let all = read.push(EventView::Contents(data)).push(EventView::Guessed(guess));
            &&& follows(cfg, first, all)
            &&& run(cfg, first, probed).1 == ActionView::Probe(base_file(cfg, first.0))
            &&& run(cfg, first, read).1 == ActionView::Read(base_file(cfg, first.0))
            &&& delivers(run(cfg, first, all).1, guess, first.0.object.service, data)
        }),
{
    let none = Seq::<EventView>::empty();
    let probed = seq![EventView::Done];
    let read = probed.push(EventView::Exists(true));
    let loaded = read.push(EventView::Contents(data));
    assert(probed =~= none.push(EventView::Done));
    run_of_push(cfg, first, none, EventView::Done);
    run_of_push(cfg, first, probed, EventView::Exists(true));
    run_of_push(cfg, first, read, EventView::Contents(data));
    run_of_push(cfg, first, loaded, EventView::Guessed(guess));
}

/// An answer whose body cannot be taken ends the request with a fault and leaves its status on
/// the object; nothing else of the object changes, and no file is written.
pub proof fn unread_answers_leave_their_status(
    cfg: AppConfigView,
    service: Seq<char>,
    image: Seq<char>,
    params: ParamsView,
    first: Step,
    events: Seq<EventView>,
    status: u16,
)
    requires
        fetch::begin(cfg, service, image, params) == Ok::<Step, response::ResponseView>(first),
        follows(cfg, first, events),
        run(cfg, first, events).1 is Download,
    ensures
        ({
            let before = run(cfg, first, events).0;
            let unread = events.push(EventView::Unread { status });
            let step = run(cfg, first, unread);
            &&& follows(cfg, first, unread)
            &&& step.1 == ActionView::Fail(Fault::Reported)
            &&& step.0.stage == Stage::Finished
            &&& step.0.object == (ObjectView { status: Some(status), ..before.object })
        }),
{
    run_is_sound(cfg, service, image, params, first, events);
    run_of_push(cfg, first, events, EventView::Unread { status });
}

/// A service that refuses an object twice in a row, each time with a readable media type or none,
/// has the client answered with status 500, whatever else the two answers hold.
pub proof fn two_refusals_end_the_request(
    cfg: AppConfigView,
    service: Seq<char>,
    image: Seq<char>,
    params: ParamsView,
    first: Step,
    events: Seq<EventView>,
    status: u16,
    contents: Map<Seq<char>, Seq<Seq<u8>>>,
    body: Seq<u8>,
    second_status: u16,
    second_contents: Map<Seq<char>, Seq<Seq<u8>>>,
    second_body: Seq<u8>,
)
    requires
        fetch::begin(cfg, service, image, params) == Ok::<Step, response::ResponseView>(first),
        follows(cfg, first, events),
        run(cfg, first, events).0.stage == Stage::Fetching(Attempt::First),
        refused(status),
        headers::content_type_of(contents) is Ok,
        refused(second_status),
        headers::content_type_of(second_contents) is Ok,
    ensures
        ({
            let again = events.push(
                EventView::Received { status, headers: contents, body },
            ).push(EventView::Done);
            let all = again.push(
                EventView::Received {
                    status: second_status,
                    headers: second_contents,
                    body: second_body,
                },
            ).push(EventView::Done);
            &&& follows(cfg, first, all)
            &&& asks_the_service(run(cfg, first, again).1, cfg, first.0)
            &&& gives_up(run(cfg, first, all).1)
        }),
{
    let refused = EventView::Received { status, headers: contents, body };
    let refused_again = EventView::Received {
        status: second_status,
        headers: second_contents,
        body: second_body,
    };
    let a = events.push(refused);
    let b = a.push(EventView::Done);
    let c = b.push(refused_again);
    run_is_sound(cfg, service, image, params, first, events);
    run_of_push(cfg, first, events, refused);
    run_of_push(cfg, first, a, EventView::Done);
    run_of_push(cfg, first, b, refused_again);
    run_of_push(cfg, first, c, EventView::Done);
}

/// What a service sends to replace a document is what the client gets, whatever its status if a
/// width was asked for, and only on success if none was.
pub proof fn replacements_of_documents_are_delivered(
    cfg: AppConfigView,
    service: Seq<char>,
    image: Seq<char>,
    params: ParamsView,
    first: Step,
    events: Seq<EventView>,
    status: u16,
    contents: Map<Seq<char>, Seq<Seq<u8>>>,
    body: Seq<u8>,
)
    requires
        fetch::begin(cfg, service, image, params) == Ok::<Step, response::ResponseView>(first),
        follows(cfg, first, events),
        run(cfg, first, events).0.stage == Stage::Fetching(Attempt::Unscaled) || run(
            cfg,
            first,
            events,
        ).0.stage == Stage::Fetching(Attempt::Document),
        headers::content_type_of(contents) is Ok,
    ensures
        ({
            let sent = events.push(EventView::Received { status, headers: contents, body }).push(
                EventView::Done,
            );
            &&& follows(cfg, first, sent)
            &&& if width_of(params) != 0 || !refused(status) {
                delivers(
                    run(cfg, first, sent).1,
                    headers::content_type_of(contents)->Ok_0,
                    first.0.object.service,
                    body,
                )
            } else {
                gives_up(run(cfg, first, sent).1)
            }
        }),
{
    let received = EventView::Received { status, headers: contents, body };
    run_is_sound(cfg, service, image, params, first, events);
    run_is_answered(cfg, service, image, params, first, events);
    run_of_push(cfg, first, events, received);
    run_of_push(cfg, first, events.push(received), EventView::Done);
}

/// Every file that a request writes lies directly in one of the directories that it had created
/// first: behind the directory and a slash stands the object's name, in which no further slash
/// stands if none does in the image segment.
pub proof fn files_are_written_into_created_directories(
    cfg: AppConfigView,
    service: Seq<char>,
    image: Seq<char>,
    params: ParamsView,
    first: Step,
    events: Seq<EventView>,
)
    requires
        fetch::begin(cfg, service, image, params) == Ok::<Step, response::ResponseView>(first),
        follows(cfg, first, events),
    ensures
        first.1 matches ActionView::CreateDirs(dirs) && dirs.len() == 3 && {
            &&& run(cfg, first, events).1 matches ActionView::StoreBase { path, .. } ==> path
                == dirs[0] + "/"@ + first.0.object.name
            &&& run(cfg, first, events).1 matches ActionView::StoreVariant { path, .. } ==> path
                == dirs[1] + "/"@ + first.0.object.name || path == dirs[2] + "/"@
                + first.0.object.name
            &&& names::one_segment(first.0.object.name) <==> names::one_segment(image)
        },
{
    names::object_name_is_one_segment(image, params.path);
    requests_touch_their_own_files(cfg, service, image, params, first, events);
    storage::files_lie_in_directories(
        cfg.storage_path,
        first.0.object.service.name,
        first.0.scale,
        first.0.object.name,
    );
}

/// What a scaler makes is what the client gets, at once if it is the object itself and after the
/// two copies are written otherwise.
pub proof fn scaled_images_are_delivered(
    cfg: AppConfigView,
    service: Seq<char>,
    image: Seq<char>,
    params: ParamsView,
    first: Step,
    events: Seq<EventView>,
    scaled: Seq<u8>,
)
    requires
        fetch::begin(cfg, service, image, params) == Ok::<Step, response::ResponseView>(first),
        follows(cfg, first, events),
        run(cfg, first, events).0.stage == Stage::Scaling,
    ensures
        ({
            let s = run(cfg, first, events).0;
            let made = events.push(EventView::Image(scaled));
            let kept = made.push(EventView::Done).push(EventView::Done);
            let all = if scaled == s.object.data {
                made
            } else {
                kept
            };
            &&& follows(cfg, first, all)
            &&& delivers(run(cfg, first, all).1, s.object.content_type, first.0.object.service, scaled)
        }),
{
    let made = events.push(EventView::Image(scaled));
    run_is_sound(cfg, service, image, params, first, events);
    run_of_push(cfg, first, events, EventView::Image(scaled));
    run_of_push(cfg, first, made, EventView::Done);
    run_of_push(cfg, first, made.push(EventView::Done), EventView::Done);
}

/// Where a scaler objects, the client gets the object unscaled: as it is where the objection does
/// not point at damage, as the service sends it again where it does.
pub proof fn objections_lead_to_the_unscaled_object(
    cfg: AppConfigView,
    service: Seq<char>,
    image: Seq<char>,
    params: ParamsView,
    first: Step,
    events: Seq<EventView>,
    message: Seq<char>,
    status: u16,
    contents: Map<Seq<char>, Seq<Seq<u8>>>,
    body: Seq<u8>,
)
    requires
        fetch::begin(cfg, service, image, params) == Ok::<Step, response::ResponseView>(first),
        follows(cfg, first, events),
        run(cfg, first, events).0.stage == Stage::Scaling,
    ensures
        ({
            let s = run(cfg, first, events).0;
            let objected = events.push(EventView::Rejected(message));
            let sent = objected.push(
                EventView::Received { status, headers: contents, body },
            ).push(EventView::Done);
            &&& !speaks_of_damage(message) ==> {
                &&& follows(cfg, first, objected)
                &&& delivers(run(cfg, first, objected).1, s.object.content_type, first.0.object.service, s.object.data)
            }
            &&& speaks_of_damage(message) ==> asks_the_service(
                run(cfg, first, objected).1,
                cfg,
                first.0,
            )
            &&& speaks_of_damage(message) && headers::content_type_of(contents) is Ok ==> {
                &&& follows(cfg, first, sent)
                &&& delivers(run(cfg, first, sent).1, headers::content_type_of(contents)->Ok_0, first.0.object.service, body)
            }
        }),
{
    let objected = events.push(EventView::Rejected(message));
    let received = EventView::Received { status, headers: contents, body };
    steps::word_occurs(message, "buffer"@);
    steps::word_occurs(message, "unexpected EOF"@);
    run_is_sound(cfg, service, image, params, first, events);
    run_of_push(cfg, first, events, EventView::Rejected(message));
    run_of_push(cfg, first, objected, received);
    run_of_push(cfg, first, objected.push(received), EventView::Done);
}

} // verus!
