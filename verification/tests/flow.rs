use scrapman::{
    ClickElement, FlowControl, Move, Pause, Response, ScrapeError, ScrapePipeline, ScrapeStage,
    StoreModel,
};

fn pipeline() -> ScrapePipeline {
    ScrapePipeline::default()
        .push(ScrapeStage::named("First", StoreModel))
        .push(
            ScrapeStage::from(ClickElement)
                .on_complete(FlowControl::goto("Last"))
                .on_any_error(FlowControl::Quit),
        )
        .push(
            ScrapeStage::from(Pause::new(10))
                .on_complete(FlowControl::repeat())
                .on_any_error(FlowControl::repeat_with_delay(250)),
        )
        .push(
            ScrapeStage::named("Last", StoreModel)
                .on_complete(FlowControl::goto("First"))
                .on_any_error(FlowControl::goto("Lost")),
        )
}

#[test]
fn continue_goes_on_behind_the_stage() {
    let pipeline = pipeline();
    assert_eq!(Move::Run(1), pipeline.advance(0, Ok(())));
    assert_eq!(Move::Run(1), pipeline.advance(0, Err(ScrapeError::MissingElement)));
    assert_eq!(Move::Run(1), pipeline.advance(0, Err(ScrapeError::TestError)));
}

#[test]
fn directive_follows_the_outcome() {
    let pipeline = pipeline();
    assert_eq!(Move::Run(3), pipeline.advance(1, Ok(())));
    assert_eq!(Move::Stop, pipeline.advance(1, Err(ScrapeError::TestError)));
    assert_eq!(Move::Run(2), pipeline.advance(2, Ok(())));
    assert_eq!(Move::Wait(250), pipeline.advance(2, Err(ScrapeError::ElementQueryEmptyResult)));
    assert_eq!(Move::Run(0), pipeline.advance(3, Ok(())));
}

#[test]
fn goto_to_a_missing_stage_fails_with_its_name() {
    let pipeline = pipeline();
    assert_eq!(
        Move::Fail(ScrapeError::MissingPipelineStage("Lost".to_string())),
        pipeline.advance(3, Err(ScrapeError::ValueResolveError))
    );
}

#[test]
fn session_failure_is_handed_to_no_directive() {
    let pipeline = pipeline();
    for cursor in 0..4 {
        assert_eq!(
            Move::Fail(ScrapeError::WebdriverCommandError("gone".to_string())),
            pipeline.advance(cursor, Err(ScrapeError::WebdriverCommandError("gone".to_string())))
        );
    }
    // A failed connection is no failure of a command.
    assert_eq!(
        Move::Stop,
        pipeline.advance(1, Err(ScrapeError::WebdriverConnectionError("refused".to_string())))
    );
}

#[test]
fn position_finds_the_first_stage_of_a_name() {
    let pipeline = pipeline();
    assert_eq!(Some(0), pipeline.position("First"));
    assert_eq!(Some(3), pipeline.position("Last"));
    assert_eq!(None, pipeline.position("Lost"));
    assert_eq!(None, pipeline.position(""));
    assert_eq!(None, ScrapePipeline::default().position("First"));
}

#[test]
fn responses_without_result_are_read_as_outcomes() {
    assert_eq!(Ok(()), Response::Done.completed());
    assert_eq!(
        Err(ScrapeError::WebdriverCommandError("timeout".to_string())),
        Response::Failed("timeout".to_string()).completed()
    );
    assert_eq!(
        Err(ScrapeError::WebdriverCommandError(
            "unexpected response of the browser client".to_string()
        )),
        Response::Elements(Vec::new()).completed()
    );
    assert_eq!(
        ScrapeError::WebdriverCommandError("unexpected response of the browser client".to_string()),
        Response::Done.failure()
    );
}

#[test]
fn errors_describe_themselves() {
    assert_eq!("failed to resolve value", ScrapeError::ValueResolveError.to_string());
    assert_eq!("element query empty result", ScrapeError::ElementQueryEmptyResult.to_string());
    assert_eq!(
        "required element is missing in the pipeline execution context",
        ScrapeError::MissingElement.to_string()
    );
    assert_eq!("missing URL to open", ScrapeError::MissingUrl.to_string());
    assert_eq!("missing element query", ScrapeError::MissingQuery.to_string());
    assert_eq!(
        "missing specified pipeline stage",
        ScrapeError::MissingPipelineStage("Lost".to_string()).to_string()
    );
    assert_eq!(
        "failed to populate model attribute",
        ScrapeError::SetModelAttributeError("a.b".to_string()).to_string()
    );
    assert_eq!("test error", ScrapeError::TestError.to_string());
    assert_eq!(
        "webdriver connection error: refused",
        ScrapeError::WebdriverConnectionError("refused".to_string()).to_string()
    );
    assert_eq!(
        "webdriver command error: no such element",
        ScrapeError::WebdriverCommandError("no such element".to_string()).to_string()
    );
}

#[test]
fn only_command_failures_are_fatal() {
    assert_eq!(true, ScrapeError::WebdriverCommandError(String::new()).is_fatal());
    assert_eq!(false, ScrapeError::WebdriverConnectionError(String::new()).is_fatal());
    assert_eq!(false, ScrapeError::MissingElement.is_fatal());
    assert_eq!(false, ScrapeError::TestError.is_fatal());
    assert_eq!(false, ScrapeError::MissingPipelineStage(String::new()).is_fatal());
}
