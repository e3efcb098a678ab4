use scrapman::{
    Action, ClickElement, ElementHandle, Execution, FillElement, FlowControl, JsonValue, OpenUrl,
    Pause, QueryElement, Request, Response, ScrapeContext, ScrapeError, ScrapePipeline,
    ScrapeStage, Scrapman, Selector, SetModelAttribute, StoreModel, Value,
};

/// A browser client that answers from a script and keeps what it was asked.
struct MockClient {
    navigated: Vec<String>,
    searched: Vec<(Option<u64>, Selector, String)>,
    typed: Vec<(u64, String)>,
    clicked: Vec<u64>,
    slept: Vec<u64>,
    read: Vec<u64>,
    disconnected: usize,
    /// The elements that each lookup finds, in turn; the last entry stays.
    found: Vec<Vec<u64>>,
    text: String,
    attribute: Option<String>,
    fail_navigate: bool,
    fail_search_after: Option<usize>,
    fail_disconnect: bool,
}

impl MockClient {
    fn new() -> MockClient {
        MockClient {
            navigated: Vec::new(),
            searched: Vec::new(),
            typed: Vec::new(),
            clicked: Vec::new(),
            slept: Vec::new(),
            read: Vec::new(),
            disconnected: 0,
            found: Vec::new(),
            text: String::new(),
            attribute: None,
            fail_navigate: false,
            fail_search_after: None,
            fail_disconnect: false,
        }
    }

    fn finding(mut self, elements: &[u64]) -> MockClient {
        self.found.push(elements.to_vec());
        self
    }

    fn answer(&mut self, request: Request) -> Response {
        match request {
            Request::Proceed | Request::Finished => Response::Done,
            Request::Navigate { url } => {
                self.navigated.push(url);
                if self.fail_navigate {
                    Response::Failed("no such window".to_string())
                } else {
                    Response::Done
                }
            }
            Request::FindAll { root, selector, query } => {
                let turn = self.searched.len();
                self.searched.push((root.map(|element| element.id), selector, query));
                if let Some(limit) = self.fail_search_after {
                    if turn >= limit {
                        return Response::Failed("session lost".to_string());
                    }
                }
                let elements = if self.found.is_empty() {
                    Vec::new()
                } else if turn < self.found.len() {
                    self.found[turn].clone()
                } else {
                    self.found[self.found.len() - 1].clone()
                };
                Response::Elements(elements.into_iter().map(|id| ElementHandle { id }).collect())
            }
            Request::ElementText { element } => {
                self.read.push(element.id);
                Response::Text(format!("{}#{}", self.text, element.id))
            }
            Request::ElementAttribute { element, name } => {
                self.read.push(element.id);
                Response::Attribute(self.attribute.as_ref().map(|value| format!("{}={}", name, value)))
            }
            Request::SendKeys { element, text } => {
                self.typed.push((element.id, text));
                Response::Done
            }
            Request::Click { element } => {
                self.clicked.push(element.id);
                Response::Done
            }
            Request::Sleep { millis } => {
                self.slept.push(millis);
                Response::Done
            }
            Request::Disconnect => {
                self.disconnected += 1;
                if self.fail_disconnect {
                    Response::Failed("already closed".to_string())
                } else {
                    Response::Done
                }
            }
        }
    }
}

/// Runs an execution against the client until it is over.
fn drive(mut run: Execution, client: &mut MockClient) -> Result<ScrapeContext, ScrapeError> {
    let mut response = Response::Done;
    for _ in 0..10_000 {
        let (next, request) = run.step(response);
        run = next;
        if request == Request::Finished {
            assert!(run.is_finished());
            return run.into_result();
        }
        response = client.answer(request);
    }
    panic!("the run did not end");
}

fn launch(pipeline: ScrapePipeline, client: &mut MockClient) -> Result<ScrapeContext, ScrapeError> {
    drive(Scrapman::new("").launch(pipeline, None), client)
}

fn json(text: &str) -> JsonValue {
    serde_json::from_str(text).unwrap()
}

/// An action that fails whatever the page holds, the session living on.
fn failing() -> ClickElement {
    ClickElement
}

/// An action that succeeds and leaves the context as it is.
fn succeeding() -> Pause {
    Pause::new(0)
}

#[test]
fn test_plain_pipeline() {
    let url = "http://localhost";
    let pipeline = ScrapePipeline::default().push(OpenUrl::new(Value::Constant(url.into())));

    let mut client = MockClient::new();
    let scrapman = Scrapman::new(url);

    let result = drive(scrapman.launch(pipeline, None), &mut client);
    assert_eq!(true, result.is_ok());
    assert_eq!(vec![url.to_string()], client.navigated);
    assert_eq!(1, client.disconnected);
}

#[test]
fn test_quit_on_error() {
    let pipeline = ScrapePipeline::default()
        .push(ScrapeStage::from(failing()).on_any_error(FlowControl::Quit))
        .push(StoreModel);

    let mut client = MockClient::new();
    let result = launch(pipeline, &mut client);
    assert_eq!(true, result.is_ok());
    assert_eq!(1, client.disconnected);

    let ctx = result.unwrap();
    assert_eq!(0, ctx.models.len());
}

fn conditional_pipeline<T: scrapman::IntoStage>(first: T) -> Result<ScrapeContext, ScrapeError> {
    let pipeline = ScrapePipeline::default()
        .push(ScrapeStage::from(first).on_complete(FlowControl::Goto("Complete".into())))
        .push(StoreModel)
        .push(ScrapeStage::from(succeeding()).with_name("Complete"));

    let mut client = MockClient::new();
    let result = launch(pipeline, &mut client);
    assert_eq!(1, client.disconnected);
    result
}

#[test]
fn test_conditional_pipeline_1() {
    let result = conditional_pipeline(succeeding());
    assert_eq!(true, result.is_ok());

    let ctx = result.unwrap();
    assert_eq!(0, ctx.models.len());
}

#[test]
fn test_conditional_pipeline_2() {
    let result = conditional_pipeline(failing());
    assert_eq!(true, result.is_ok());

    let ctx = result.unwrap();
    assert_eq!(1, ctx.models.len());
}

#[test]
fn goto_missing_stage_fails_the_run() {
    let pipeline = ScrapePipeline::default()
        .push(ScrapeStage::from(succeeding()).on_complete(FlowControl::goto("Nowhere")))
        .push(ScrapeStage::from(StoreModel).with_name("Somewhere"));

    let mut client = MockClient::new();
    let result = launch(pipeline, &mut client);
    assert_eq!(ScrapeError::MissingPipelineStage("Nowhere".to_string()), result.unwrap_err());
    assert_eq!(1, client.disconnected);
}

#[test]
fn goto_takes_the_first_stage_of_the_name() {
    let pipeline = ScrapePipeline::default()
        .push(ScrapeStage::from(succeeding()).on_complete(FlowControl::goto("Twice")))
        .push(StoreModel)
        .push(ScrapeStage::named("Twice", StoreModel).on_complete(FlowControl::Quit))
        .push(ScrapeStage::named("Twice", StoreModel));
    assert_eq!(Some(2), pipeline.position("Twice"));
    assert_eq!(None, pipeline.position("twice"));

    let ctx = launch(pipeline, &mut MockClient::new()).unwrap();
    assert_eq!(1, ctx.models.len());
}

#[test]
fn for_each_runs_the_pipeline_once_for_each_element() {
    let pipeline = ScrapePipeline::default().push(
        QueryElement::global(Selector::Css, Value::Constant(".card".into())).for_each(
            ScrapePipeline::default()
                .push(SetModelAttribute::new("title", Value::ElementText))
                .push(StoreModel),
        ),
    );

    let mut client = MockClient::new().finding(&[1, 2, 3]);
    client.text = "card".to_string();
    let ctx = launch(pipeline, &mut client).unwrap();

    assert_eq!(3, ctx.models.len());
    assert_eq!(json(r#"{"title":"card#1"}"#), ctx.models[0]);
    assert_eq!(json(r#"{"title":"card#2"}"#), ctx.models[1]);
    assert_eq!(json(r#"{"title":"card#3"}"#), ctx.models[2]);
    assert_eq!(json("{}"), ctx.model);
    assert_eq!(None, ctx.scoped_element);
    assert_eq!(Some(ElementHandle { id: 3 }), ctx.current_element);
    assert_eq!(vec![(None, Selector::Css, ".card".to_string())], client.searched);
    assert_eq!(vec![1, 2, 3], client.read);
}

#[test]
fn for_each_restores_the_scope_it_found() {
    // The outer lookup scopes element 10. The inner one runs over 1, 2 and 3
    // and is followed, in the same scope, by a scoped lookup.
    let inner = ScrapePipeline::default()
        .push(
            QueryElement::global(Selector::Css, Value::Constant(".row".into()))
                .for_each(ScrapePipeline::default().push(StoreModel)),
        )
        .push(QueryElement::scoped(Selector::Id, Value::Constant("total".into())));
    let pipeline = ScrapePipeline::default().push(
        QueryElement::global(Selector::Css, Value::Constant(".table".into())).for_each(inner),
    );

    let mut client = MockClient::new().finding(&[10]).finding(&[1, 2, 3]).finding(&[7]);
    let ctx = launch(pipeline, &mut client).unwrap();

    assert_eq!(3, ctx.models.len());
    assert_eq!(
        vec![
            (None, Selector::Css, ".table".to_string()),
            (None, Selector::Css, ".row".to_string()),
            (Some(10), Selector::Id, "total".to_string()),
        ],
        client.searched
    );
    assert_eq!(None, ctx.scoped_element);
    assert_eq!(Some(ElementHandle { id: 10 }), ctx.current_element);
}

#[test]
fn lookup_without_pipeline_focuses_the_last_element() {
    let pipeline = ScrapePipeline::default()
        .push(QueryElement::global(Selector::LinkText, Value::Constant("Next".into())))
        .push(QueryElement::current(Selector::Css, Value::Constant("span".into())));

    let mut client = MockClient::new().finding(&[4, 5]).finding(&[6]);
    let ctx = launch(pipeline, &mut client).unwrap();

    assert_eq!(
        vec![
            (None, Selector::LinkText, "Next".to_string()),
            (Some(5), Selector::Css, "span".to_string()),
        ],
        client.searched
    );
    assert_eq!(Some(ElementHandle { id: 6 }), ctx.current_element);
    assert_eq!(None, ctx.scoped_element);
}

#[test]
fn lookup_that_finds_nothing_fails_with_empty_result() {
    let pipeline = ScrapePipeline::default().push(
        ScrapeStage::from(QueryElement::global(Selector::Css, Value::Constant("p".into())))
            .on_any_error(FlowControl::goto("Missing")),
    );
    let mut client = MockClient::new();
    // The error is handed to `on_error`, whose target does not exist.
    let result = launch(pipeline, &mut client);
    assert_eq!(ScrapeError::MissingPipelineStage("Missing".to_string()), result.unwrap_err());

    let query = QueryElement::global(Selector::Css, Value::Constant("p".into()));
    let run = Scrapman::new("").launch(ScrapePipeline::default().push(query), None);
    let (run, request) = run.step(Response::Done);
    assert_eq!(
        Request::FindAll { root: None, selector: Selector::Css, query: "p".to_string() },
        request
    );
    let (run, request) = run.step(Response::Elements(Vec::new()));
    assert_eq!(Request::Proceed, request);
    assert_eq!(None, run.context().current_element);
}

#[test]
fn scoped_lookup_without_scope_fails_with_missing_element() {
    let context = ScrapeContext::default();
    let scoped = QueryElement::scoped(Selector::Css, Value::Constant("p".into()));
    let current = QueryElement::current(Selector::Css, Value::Constant("p".into()));
    assert_eq!(
        scrapman::Progress::Done(Err(ScrapeError::MissingElement)),
        scoped.execute(&context, Ok(Some("p".to_string())))
    );
    assert_eq!(
        scrapman::Progress::Done(Err(ScrapeError::MissingElement)),
        current.execute(&context, Ok(Some("p".to_string())))
    );
    assert_eq!(
        scrapman::Progress::Done(Err(ScrapeError::MissingQuery)),
        scoped.execute(&context, Ok(None))
    );
}

#[test]
fn session_failure_ends_the_run_whatever_the_stage_says() {
    let pipeline = ScrapePipeline::default()
        .push(
            ScrapeStage::from(OpenUrl::new(Value::Constant("http://localhost".into())))
                .on_any_error(FlowControl::Continue),
        )
        .push(StoreModel);

    let mut client = MockClient::new();
    client.fail_navigate = true;
    let result = launch(pipeline, &mut client);
    assert_eq!(
        ScrapeError::WebdriverCommandError("no such window".to_string()),
        result.unwrap_err()
    );
    assert_eq!(1, client.disconnected);
}

#[test]
fn session_failure_inside_for_each_does_not_end_the_run() {
    // Every lookup after the first fails with the session. The pipeline run
    // for each element ends there, and the next element is taken up.
    let each = ScrapePipeline::default()
        .push(QueryElement::scoped(Selector::Css, Value::Constant("a".into())))
        .push(StoreModel);
    let pipeline = ScrapePipeline::default()
        .push(QueryElement::global(Selector::Css, Value::Constant("li".into())).for_each(each))
        .push(StoreModel);

    let mut client = MockClient::new().finding(&[1, 2]);
    client.fail_search_after = Some(1);
    let ctx = launch(pipeline, &mut client).unwrap();

    assert_eq!(3, client.searched.len());
    assert_eq!(1, ctx.models.len());
    assert_eq!(Some(ElementHandle { id: 2 }), ctx.current_element);
    assert_eq!(None, ctx.scoped_element);
}

#[test]
fn failed_disconnect_fails_a_run_that_went_well() {
    let mut client = MockClient::new();
    client.fail_disconnect = true;
    let result = launch(ScrapePipeline::default(), &mut client);
    assert_eq!(
        ScrapeError::WebdriverCommandError("already closed".to_string()),
        result.unwrap_err()
    );

    let mut client = MockClient::new();
    client.fail_disconnect = true;
    client.fail_navigate = true;
    let pipeline = ScrapePipeline::default().push(OpenUrl::new(Value::Constant("x".into())));
    let result = launch(pipeline, &mut client);
    assert_eq!(
        ScrapeError::WebdriverCommandError("no such window".to_string()),
        result.unwrap_err()
    );
}

#[test]
fn repeat_runs_the_stage_again_after_the_delay() {
    // The lookup finds an overlay twice and then nothing.
    let pipeline = ScrapePipeline::default()
        .push(
            ScrapeStage::from(QueryElement::global(Selector::Css, Value::Constant(".wait".into())))
                .on_complete(FlowControl::repeat_with_delay(500))
                .on_any_error(FlowControl::Continue),
        )
        .push(StoreModel);

    let mut client = MockClient::new().finding(&[1]).finding(&[1]).finding(&[]);
    let ctx = launch(pipeline, &mut client).unwrap();
    assert_eq!(3, client.searched.len());
    assert_eq!(vec![500, 500], client.slept);
    assert_eq!(1, ctx.models.len());
}

#[test]
fn repeat_without_delay_asks_for_no_wait() {
    let pipeline = ScrapePipeline::default().push(
        ScrapeStage::from(QueryElement::global(Selector::Css, Value::Constant(".wait".into())))
            .on_complete(FlowControl::repeat()),
    );
    let mut client = MockClient::new().finding(&[1]).finding(&[]);
    let ctx = launch(pipeline, &mut client).unwrap();
    assert_eq!(2, client.searched.len());
    assert_eq!(0, client.slept.len());
    assert_eq!(0, ctx.models.len());
}

#[test]
fn click_scrolls_clicks_and_gives_up_the_focus() {
    let pipeline = ScrapePipeline::default()
        .push(QueryElement::global(Selector::Id, Value::Constant("go".into())))
        .push(ClickElement)
        .push(ScrapeStage::from(ClickElement).on_any_error(FlowControl::Quit))
        .push(StoreModel);

    let mut client = MockClient::new().finding(&[9]);
    let ctx = launch(pipeline, &mut client).unwrap();
    assert_eq!(vec![(9, String::new())], client.typed);
    assert_eq!(vec![9], client.clicked);
    assert_eq!(None, ctx.current_element);
    assert_eq!(0, ctx.models.len());
}

#[test]
fn fill_types_the_resolved_text_into_the_focus() {
    let pipeline = ScrapePipeline::default()
        .push(QueryElement::global(Selector::Id, Value::context("search.input_id")))
        .push(FillElement::new(Value::context("search.query")));

    let values = json(r#"{"search":{"input_id":"q","query":"flats"}}"#);
    let mut client = MockClient::new().finding(&[2]);
    let ctx = drive(Scrapman::new("").launch(pipeline, Some(values.clone())), &mut client).unwrap();
    assert_eq!(vec![(None, Selector::Id, "q".to_string())], client.searched);
    assert_eq!(vec![(2, "flats".to_string())], client.typed);
    assert_eq!(values, ctx.values);
    assert_eq!(Some(ElementHandle { id: 2 }), ctx.current_element);
}

#[test]
fn fill_without_focus_fails_with_missing_element() {
    let context = ScrapeContext::default();
    let fill = FillElement::new(Value::Constant("x".into()));
    assert_eq!(
        scrapman::Progress::Done(Err(ScrapeError::MissingElement)),
        fill.execute(&context, Ok(Some("x".to_string())))
    );
    assert_eq!(
        scrapman::Progress::Done(Err(ScrapeError::MissingElement)),
        fill.execute(&context, Ok(None))
    );
    let mut focused = ScrapeContext::default();
    focused.current_element = Some(ElementHandle { id: 1 });
    assert_eq!(
        scrapman::Progress::Done(Err(ScrapeError::ValueResolveError)),
        fill.execute(&focused, Ok(None))
    );
    assert_eq!(
        scrapman::Progress::Ask(Request::SendKeys {
            element: ElementHandle { id: 1 },
            text: "x".to_string()
        }),
        fill.execute(&focused, Ok(Some("x".to_string())))
    );
}

#[test]
fn open_url_without_url_fails_with_missing_url() {
    // The attribute is read from the page, which does not have it.
    let pipeline = ScrapePipeline::default()
        .push(QueryElement::global(Selector::Css, Value::Constant("a".into())))
        .push(
            ScrapeStage::from(OpenUrl::new(Value::ElementAttribute("href".into())))
                .on_any_error(FlowControl::Quit),
        )
        .push(StoreModel);
    let mut client = MockClient::new().finding(&[3]);
    let ctx = launch(pipeline, &mut client).unwrap();
    assert_eq!(vec![3], client.read);
    assert_eq!(0, client.navigated.len());
    assert_eq!(0, ctx.models.len());

    let open = OpenUrl::new(Value::ElementAttribute("href".into()));
    assert_eq!(scrapman::Progress::Done(Err(ScrapeError::MissingUrl)), open.execute(Ok(None)));
}

#[test]
fn open_url_reads_the_attribute_of_the_focus() {
    let pipeline = ScrapePipeline::default()
        .push(QueryElement::global(Selector::Css, Value::Constant("a".into())))
        .push(OpenUrl::new(Value::ElementAttribute("href".into())));
    let mut client = MockClient::new().finding(&[3]);
    client.attribute = Some("http://localhost/next".to_string());
    launch(pipeline, &mut client).unwrap();
    assert_eq!(vec!["href=http://localhost/next".to_string()], client.navigated);
}

#[test]
fn pause_asks_for_the_wait() {
    let pipeline = ScrapePipeline::default().push(Pause::new(1500));
    let mut client = MockClient::new();
    launch(pipeline, &mut client).unwrap();
    assert_eq!(vec![1500], client.slept);
}

#[test]
fn unexpected_response_is_a_session_failure() {
    let pipeline = ScrapePipeline::default()
        .push(
            ScrapeStage::from(QueryElement::global(Selector::Css, Value::Constant("a".into())))
                .on_any_error(FlowControl::Continue),
        );
    let run = Scrapman::new("").launch(pipeline, None);
    let (run, _) = run.step(Response::Done);
    let (run, request) = run.step(Response::Text("lost".to_string()));
    assert_eq!(Request::Disconnect, request);
    let (run, request) = run.step(Response::Done);
    assert_eq!(Request::Finished, request);
    assert_eq!(
        ScrapeError::WebdriverCommandError("unexpected response of the browser client".to_string()),
        run.into_result().unwrap_err()
    );
}

#[test]
fn finished_run_stays_finished() {
    let run = Scrapman::new("").launch(ScrapePipeline::default(), None);
    assert_eq!(false, run.is_finished());
    let (run, request) = run.step(Response::Done);
    assert_eq!(Request::Disconnect, request);
    let (run, request) = run.step(Response::Done);
    assert_eq!(Request::Finished, request);
    let (run, request) = run.step(Response::Failed("late".to_string()));
    assert_eq!(Request::Finished, request);
    assert_eq!(true, run.is_finished());
    assert_eq!(true, run.into_result().is_ok());
}

#[test]
fn stage_from_action_goes_on_whatever_comes() {
    let stage = ScrapeStage::from(StoreModel);
    assert_eq!(None, stage.name);
    assert_eq!(Action::StoreModel(StoreModel), stage.action);
    assert_eq!(FlowControl::Continue, stage.on_complete);
    assert_eq!(FlowControl::Continue, stage.on_error);

    let named = ScrapeStage::named("Cards", Action::ClickElement(ClickElement));
    assert_eq!(Some("Cards".to_string()), named.name);
    assert_eq!(Action::ClickElement(ClickElement), named.action);
    assert_eq!(FlowControl::Goto("x".to_string()), FlowControl::goto("x"));
    assert_eq!(FlowControl::Repeat { delay: None }, FlowControl::repeat());
    assert_eq!(FlowControl::Repeat { delay: Some(5) }, FlowControl::repeat_with_delay(5));
}
