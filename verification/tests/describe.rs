use scrapman::{
    Action, ClickElement, ElementScope, FillElement, OpenUrl, Pause, Phase, QueryElement, Response,
    ScrapePipeline, ScrapeStage, Scrapman, Selector, SetModelAttribute, StoreModel, Value,
};

#[test]
fn values_describe_themselves_with_quoted_texts() {
    assert_eq!("Constant(\"http://localhost\")", Value::Constant("http://localhost".into()).describe());
    assert_eq!("Context(\"search.query\")", Value::context("search.query").describe());
    assert_eq!("ElementText", Value::ElementText.describe());
    assert_eq!("ElementAttribute(\"href\")", Value::ElementAttribute("href".into()).describe());
    assert_eq!(
        "Constant(\"say \\\"hi\\\"\\n\")",
        Value::Constant("say \"hi\"\n".into()).describe()
    );
    let value = Value::Constant("a\\b\t".into());
    assert_eq!(format!("{:?}", value), value.describe());
}

#[test]
fn selectors_and_scopes_name_themselves() {
    assert_eq!("Css", Selector::Css.describe());
    assert_eq!("Id", Selector::Id.describe());
    assert_eq!("LinkText", Selector::LinkText.describe());
    assert_eq!("Global", ElementScope::Global.describe());
    assert_eq!("Scoped", ElementScope::Scoped.describe());
    assert_eq!("Current", ElementScope::Current.describe());
}

#[test]
fn actions_describe_themselves() {
    assert_eq!(
        "open URL with the value from Context(\"start_url\")",
        Action::OpenUrl(OpenUrl::new(Value::context("start_url"))).describe()
    );
    assert_eq!(
        "QueryElement(Css, Constant(\".card\"), Scoped)",
        Action::QueryElement(QueryElement::scoped(Selector::Css, Value::Constant(".card".into())))
            .describe()
    );
    assert_eq!(
        "QueryElement(LinkText, ElementText, Global)",
        QueryElement::global(Selector::LinkText, Value::ElementText)
            .for_each(ScrapePipeline::default())
            .describe()
    );
    assert_eq!(
        "FillElement(ElementAttribute(\"value\"))",
        Action::FillElement(FillElement::new(Value::ElementAttribute("value".into()))).describe()
    );
    assert_eq!("click the current element", Action::ClickElement(ClickElement).describe());
    assert_eq!(
        "SetModelAttribute(price.amount, ElementText)",
        Action::SetModelAttribute(SetModelAttribute::new("price.amount", Value::ElementText))
            .describe()
    );
    assert_eq!("store model", Action::StoreModel(StoreModel).describe());
    assert_eq!("Pause", Action::Pause(Pause::new(20)).describe());
}

#[test]
fn run_tells_its_phase_and_its_stage() {
    let pipeline = ScrapePipeline::default().push(ScrapeStage::named("Wait", Pause::new(5)));
    let run = Scrapman::new("http://localhost:4444").launch(pipeline, None);
    assert_eq!(Phase::Running, run.phase());
    assert_eq!(Some("Wait".to_string()), run.stage().unwrap().name);

    let (run, _) = run.step(Response::Done);
    assert_eq!(Phase::Completing, run.phase());
    assert_eq!(Action::Pause(Pause::new(5)), run.stage().unwrap().action);

    let (run, _) = run.step(Response::Done);
    assert_eq!(Phase::Running, run.phase());
    assert_eq!(true, run.stage().is_none());

    let (run, _) = run.step(Response::Done);
    assert_eq!(Phase::Disconnecting, run.phase());
    let (run, _) = run.step(Response::Done);
    assert_eq!(Phase::Finished, run.phase());
}

#[test]
fn launcher_keeps_the_url_of_the_webdriver() {
    assert_eq!("http://localhost:4444", Scrapman::new("http://localhost:4444").webdriver_url);
}
