use rhi_zone_habitat_core::{
    Action, Answer, Error, Json, Object, Pending, Query, Reply, Row, Step, Store,
};

/// A libsql connection that carries out the store's actions.
struct Engine {
    runtime: tokio::runtime::Runtime,
    database: Option<libsql::Database>,
    connection: Option<libsql::Connection>,
    rows: Option<libsql::Rows>,
}

impl Engine {
    fn new() -> Engine {
        let runtime = tokio::runtime::Builder::new_current_thread().enable_all().build().unwrap();
        Engine { runtime, database: None, connection: None, rows: None }
    }

    fn connect(&mut self, location: &str) -> Result<(), libsql::Error> {
        let database =
            self.runtime.block_on(libsql::Builder::new_local(location.to_string()).build())?;
        self.connection = Some(database.connect()?);
        self.database = Some(database);
        Ok(())
    }

    fn fetch(&mut self) -> Result<Option<Row>, libsql::Error> {
        let rows = self.rows.as_mut().expect("a selection is open");
        match self.runtime.block_on(rows.next())? {
            Some(row) => Ok(Some(Row { id: row.get(0)?, data: row.get(1)? })),
            None => Ok(None),
        }
    }

    fn perform(&mut self, action: &Action) -> Answer {
        let outcome = match action {
            Action::Connect(location) => self.connect(location).map(|_| Answer::Connected),
            Action::Execute(statement) => {
                let connection = self.connection.as_ref().expect("connected");
                self.runtime
                    .block_on(connection.execute(
                        &statement.sql,
                        libsql::params_from_iter(statement.params.clone()),
                    ))
                    .map(Answer::Changed)
            }
            Action::Select(statement) => {
                let connection = self.connection.as_ref().expect("connected");
                let rows = self.runtime.block_on(
                    connection
                        .query(&statement.sql, libsql::params_from_iter(statement.params.clone())),
                );
                rows.map(|rows| {
                    self.rows = Some(rows);
                    Answer::Selected
                })
            }
            Action::Fetch => self.fetch().map(|row| match row {
                Some(row) => Answer::Row(row),
                None => Answer::End,
            }),
        };
        match outcome {
            Ok(answer) => answer,
            Err(e) => Answer::Failed(e.to_string()),
        }
    }

    fn run(&mut self, pending: Pending) -> Result<Reply, Error> {
        let mut pending = pending;
        loop {
            let answer = self.perform(&pending.action);
            match pending.resume(answer)? {
                Step::Next(more) => pending = more,
                Step::Done(reply) => return Ok(reply),
            }
        }
    }

    fn open(&mut self, location: &str) -> Result<Store, Error> {
        match self.run(Store::open(location))? {
            Reply::Opened(store) => Ok(store),
            other => panic!("{:?}", other),
        }
    }

    fn open_memory(&mut self) -> Result<Store, Error> {
        match self.run(Store::open_memory())? {
            Reply::Opened(store) => Ok(store),
            other => panic!("{:?}", other),
        }
    }

    fn create(&mut self, store: &Store, data: Json) -> Result<String, Error> {
        match self.run(store.create(data)?)? {
            Reply::Created(id) => Ok(id),
            other => panic!("{:?}", other),
        }
    }

    fn get(&mut self, store: &Store, id: &str) -> Result<Option<Object>, Error> {
        match self.run(store.get(id))? {
            Reply::Found(found) => Ok(found),
            other => panic!("{:?}", other),
        }
    }

    fn list(&mut self, pending: Pending) -> Result<Vec<Object>, Error> {
        match self.run(pending)? {
            Reply::Listed(found) => Ok(found),
            other => panic!("{:?}", other),
        }
    }

    fn query(&mut self, store: &Store, q: Query) -> Result<Vec<Object>, Error> {
        self.list(store.query(q))
    }

    fn update(&mut self, store: &Store, id: &str, data: Json) -> Result<(), Error> {
        self.run(store.update(id, data)?).map(|_| ())
    }

    fn delete(&mut self, store: &Store, id: &str) -> Result<(), Error> {
        self.run(store.delete(id)).map(|_| ())
    }

    fn backlinks(&mut self, store: &Store, id: &str) -> Result<Vec<Object>, Error> {
        self.list(store.backlinks(id))
    }

    fn children(&mut self, store: &Store, id: &str) -> Result<Vec<Object>, Error> {
        self.list(store.children(id))
    }
}

fn s(text: &str) -> Json {
    Json::Text(text.to_string())
}

fn list(items: Vec<&str>) -> Json {
    Json::Array(items.into_iter().map(s).collect())
}

fn json(members: Vec<(&str, Json)>) -> Json {
    Json::Object(members.into_iter().map(|(k, v)| (k.to_string(), v)).collect())
}

fn sorted(ids: Vec<String>) -> Vec<String> {
    let mut ids = ids;
    ids.sort();
    ids
}

fn ids_of(found: &[Object]) -> Vec<String> {
    sorted(found.iter().map(|o| o.id.clone()).collect())
}

fn count(engine: &mut Engine, store: &Store) -> usize {
    engine.query(store, Query::new()).unwrap().len()
}

#[test]
fn test_crud() {
    let mut engine = Engine::new();
    let store = engine.open_memory().unwrap();

    // Create
    let id = engine
        .create(
            &store,
            json(vec![
                ("type", s("thought")),
                ("content", s("hello world")),
                ("tags", list(vec!["test", "greeting"])),
            ]),
        )
        .unwrap();

    // Get
    let obj = engine.get(&store, &id).unwrap().unwrap();
    assert_eq!(obj.object_type(), Some("thought"));
    assert_eq!(obj.tags(), vec!["test", "greeting"]);

    // Update
    engine
        .update(
            &store,
            &id,
            json(vec![
                ("type", s("thought")),
                ("content", s("updated content")),
                ("tags", list(vec!["test"])),
            ]),
        )
        .unwrap();

    let obj = engine.get(&store, &id).unwrap().unwrap();
    assert_eq!(obj.data.get("content"), Some(&s("updated content")));

    // Delete
    engine.delete(&store, &id).unwrap();
    assert!(engine.get(&store, &id).unwrap().is_none());
}

#[test]
fn test_query_by_type() {
    let mut engine = Engine::new();
    let store = engine.open_memory().unwrap();

    engine.create(&store, json(vec![("type", s("thought")), ("content", s("a"))])).unwrap();
    engine.create(&store, json(vec![("type", s("thought")), ("content", s("b"))])).unwrap();
    engine.create(&store, json(vec![("type", s("stopwatch")), ("state", s("stopped"))])).unwrap();

    let thoughts = engine.query(&store, Query::new().with_type("thought")).unwrap();
    assert_eq!(thoughts.len(), 2);

    let stopwatches = engine.query(&store, Query::new().with_type("stopwatch")).unwrap();
    assert_eq!(stopwatches.len(), 1);
}

#[test]
fn test_query_by_tag() {
    let mut engine = Engine::new();
    let store = engine.open_memory().unwrap();

    engine
        .create(&store, json(vec![("type", s("thought")), ("tags", list(vec!["work", "urgent"]))]))
        .unwrap();
    engine
        .create(&store, json(vec![("type", s("thought")), ("tags", list(vec!["personal"]))]))
        .unwrap();
    engine.create(&store, json(vec![("type", s("thought")), ("tags", list(vec!["work"]))])).unwrap();

    let work = engine.query(&store, Query::new().with_tag("work")).unwrap();
    assert_eq!(work.len(), 2);

    let urgent = engine.query(&store, Query::new().with_tag("urgent")).unwrap();
    assert_eq!(urgent.len(), 1);
}

#[test]
fn test_parent_children() {
    let mut engine = Engine::new();
    let store = engine.open_memory().unwrap();

    let parent_id =
        engine.create(&store, json(vec![("type", s("folder")), ("name", s("root"))])).unwrap();

    engine
        .create(
            &store,
            json(vec![("type", s("thought")), ("content", s("child 1")), ("parent", s(&parent_id))]),
        )
        .unwrap();
    engine
        .create(
            &store,
            json(vec![("type", s("thought")), ("content", s("child 2")), ("parent", s(&parent_id))]),
        )
        .unwrap();

    let children = engine.children(&store, &parent_id).unwrap();
    assert_eq!(children.len(), 2);
}

#[test]
fn test_backlinks() {
    let mut engine = Engine::new();
    let store = engine.open_memory().unwrap();

    let target_id =
        engine.create(&store, json(vec![("type", s("thought")), ("content", s("target"))])).unwrap();

    engine
        .create(
            &store,
            json(vec![
                ("type", s("thought")),
                ("content", s("links to target")),
                ("links", list(vec![&target_id])),
            ]),
        )
        .unwrap();
    engine
        .create(
            &store,
            json(vec![
                ("type", s("thought")),
                ("content", s("also links")),
                ("links", list(vec![&target_id])),
            ]),
        )
        .unwrap();
    engine.create(&store, json(vec![("type", s("thought")), ("content", s("no links"))])).unwrap();

    let backlinks = engine.backlinks(&store, &target_id).unwrap();
    assert_eq!(backlinks.len(), 2);
}

#[test]
fn created_document_comes_back_as_it_went_in() {
    let mut engine = Engine::new();
    let store = engine.open_memory().unwrap();
    let value = json(vec![
        ("content", s("quote \" and \\ and \n and é")),
        ("count", Json::Number(serde_json::Number::from(42u64))),
        ("flag", Json::Bool(false)),
        ("missing", Json::Null),
        ("negative", Json::Number(serde_json::Number::from(-7i64))),
        ("nested", json(vec![("deep", Json::Array(vec![Json::Array(vec![]), json(vec![])]))])),
        ("tags", list(vec!["a", "b"])),
    ]);
    let id = engine.create(&store, value.clone()).unwrap();
    let found = engine.get(&store, &id).unwrap().unwrap();
    assert_eq!(found.id, id);
    assert_eq!(found.data, value);
}

#[test]
fn values_that_are_no_objects_are_stored_too() {
    let mut engine = Engine::new();
    let store = engine.open_memory().unwrap();
    for value in [s("just text"), Json::Array(vec![s("x")]), Json::Bool(true)] {
        let id = engine.create(&store, value.clone()).unwrap();
        let found = engine.get(&store, &id).unwrap().unwrap();
        assert_eq!(found.data, value);
        assert_eq!(found.object_type(), None);
        assert!(found.tags().is_empty());
    }
}

#[test]
fn get_of_an_unknown_identifier_is_absent() {
    let mut engine = Engine::new();
    let store = engine.open_memory().unwrap();
    assert_eq!(engine.get(&store, "no-such-id").unwrap(), None);
}

#[test]
fn update_replaces_the_whole_value() {
    let mut engine = Engine::new();
    let store = engine.open_memory().unwrap();
    let id = engine
        .create(&store, json(vec![("type", s("thought")), ("old", s("field")), ("tags", list(vec!["x"]))]))
        .unwrap();
    let second = json(vec![("fresh", s("only this"))]);
    engine.update(&store, &id, second.clone()).unwrap();
    let found = engine.get(&store, &id).unwrap().unwrap();
    assert_eq!(found.id, id);
    assert_eq!(found.data, second);
    assert_eq!(found.data.get("old"), None);
    assert_eq!(found.object_type(), None);
    assert!(found.tags().is_empty());
    assert_eq!(count(&mut engine, &store), 1);
}

#[test]
fn update_of_an_unknown_identifier_is_not_found_and_writes_nothing() {
    let mut engine = Engine::new();
    let store = engine.open_memory().unwrap();
    assert_eq!(
        engine.update(&store, "ghost", json(vec![("a", s("b"))])),
        Err(Error::NotFound("ghost".to_string()))
    );
    assert_eq!(count(&mut engine, &store), 0);
    assert_eq!(engine.get(&store, "ghost").unwrap(), None);
}

#[test]
fn delete_is_terminal() {
    let mut engine = Engine::new();
    let store = engine.open_memory().unwrap();
    let id = engine.create(&store, json(vec![("type", s("thought"))])).unwrap();
    let other = engine.create(&store, json(vec![("type", s("thought"))])).unwrap();
    assert_eq!(engine.delete(&store, &id), Ok(()));
    assert_eq!(engine.get(&store, &id).unwrap(), None);
    assert_eq!(engine.delete(&store, &id), Err(Error::NotFound(id.clone())));
    assert_eq!(engine.update(&store, &id, Json::Null), Err(Error::NotFound(id.clone())));
    assert!(engine.get(&store, &other).unwrap().is_some());
    assert_eq!(count(&mut engine, &store), 1);
}

#[test]
fn type_filter_is_exact() {
    let mut engine = Engine::new();
    let store = engine.open_memory().unwrap();
    let a = engine.create(&store, json(vec![("type", s("thought"))])).unwrap();
    let b = engine.create(&store, json(vec![("type", s("thought"))])).unwrap();
    let c = engine.create(&store, json(vec![("type", s("stopwatch"))])).unwrap();
    engine.create(&store, json(vec![("type", s("thoughts"))])).unwrap();
    engine.create(&store, json(vec![("kind", s("thought"))])).unwrap();
    engine.create(&store, json(vec![("type", list(vec!["thought"]))])).unwrap();
    engine.create(&store, s("thought")).unwrap();
    let thoughts = engine.query(&store, Query::new().with_type("thought")).unwrap();
    assert_eq!(ids_of(&thoughts), sorted(vec![a, b]));
    assert!(thoughts.iter().all(|o| o.object_type() == Some("thought")));
    let stopwatches = engine.query(&store, Query::new().with_type("stopwatch")).unwrap();
    assert_eq!(ids_of(&stopwatches), vec![c]);
    assert!(engine.query(&store, Query::new().with_type("nothing")).unwrap().is_empty());
}

#[test]
fn tag_filter_is_membership() {
    let mut engine = Engine::new();
    let store = engine.open_memory().unwrap();
    let a = engine.create(&store, json(vec![("tags", list(vec!["work", "urgent"]))])).unwrap();
    engine.create(&store, json(vec![("tags", list(vec!["personal"]))])).unwrap();
    let c = engine.create(&store, json(vec![("tags", list(vec!["work"]))])).unwrap();
    engine.create(&store, json(vec![("tags", s("work"))])).unwrap();
    engine.create(&store, json(vec![("tags", json(vec![("a", s("work"))]))])).unwrap();
    engine.create(&store, json(vec![("tags", Json::Array(vec![list(vec!["work"])]))])).unwrap();
    engine.create(&store, json(vec![("type", s("work"))])).unwrap();
    let work = engine.query(&store, Query::new().with_tag("work")).unwrap();
    assert_eq!(ids_of(&work), sorted(vec![a.clone(), c]));
    assert!(work.iter().all(|o| o.tags().contains(&"work")));
    let urgent = engine.query(&store, Query::new().with_tag("urgent")).unwrap();
    assert_eq!(ids_of(&urgent), vec![a]);
}

#[test]
fn filters_combine_with_and() {
    let mut engine = Engine::new();
    let store = engine.open_memory().unwrap();
    let hit = engine
        .create(
            &store,
            json(vec![("type", s("thought")), ("tags", list(vec!["work"])), ("parent", s("p"))]),
        )
        .unwrap();
    engine.create(&store, json(vec![("type", s("thought")), ("tags", list(vec!["work"]))])).unwrap();
    engine.create(&store, json(vec![("type", s("thought")), ("parent", s("p"))])).unwrap();
    engine.create(&store, json(vec![("type", s("note")), ("tags", list(vec!["work"])), ("parent", s("p"))])).unwrap();
    let found = engine
        .query(&store, Query::new().with_type("thought").with_tag("work").with_parent("p"))
        .unwrap();
    assert_eq!(ids_of(&found), vec![hit]);
    assert_eq!(count(&mut engine, &store), 4);
}

#[test]
fn children_are_the_query_by_parent() {
    let mut engine = Engine::new();
    let store = engine.open_memory().unwrap();
    let parent = engine.create(&store, json(vec![("type", s("folder"))])).unwrap();
    let one = engine.create(&store, json(vec![("parent", s(&parent))])).unwrap();
    let two = engine.create(&store, json(vec![("parent", s(&parent))])).unwrap();
    engine.create(&store, json(vec![("parent", s("someone else"))])).unwrap();
    let children = engine.children(&store, &parent).unwrap();
    assert_eq!(ids_of(&children), sorted(vec![one, two]));
    let queried = engine.query(&store, Query::new().with_parent(&parent)).unwrap();
    assert_eq!(children, queried);
    assert!(engine.children(&store, &children[0].id).unwrap().is_empty());
}

#[test]
fn references_may_dangle() {
    let mut engine = Engine::new();
    let store = engine.open_memory().unwrap();
    let child = engine
        .create(&store, json(vec![("parent", s("never created")), ("links", list(vec!["nor this"]))]))
        .unwrap();
    assert_eq!(ids_of(&engine.children(&store, "never created").unwrap()), vec![child.clone()]);
    assert_eq!(ids_of(&engine.backlinks(&store, "nor this").unwrap()), vec![child]);
}

#[test]
fn backlinks_hold_exactly_the_documents_that_link() {
    let mut engine = Engine::new();
    let store = engine.open_memory().unwrap();
    let b = engine.create(&store, json(vec![("content", s("b"))])).unwrap();
    let c = engine.create(&store, json(vec![("content", s("c"))])).unwrap();
    let a = engine.create(&store, json(vec![("links", list(vec!["other", &b]))])).unwrap();
    engine.create(&store, json(vec![("links", s(&b))])).unwrap();
    engine.create(&store, json(vec![("parent", s(&b))])).unwrap();
    let found = engine.backlinks(&store, &b).unwrap();
    assert_eq!(ids_of(&found), vec![a]);
    assert!(found[0].links().contains(&b.as_str()));
    assert!(engine.backlinks(&store, &c).unwrap().is_empty());
}

#[test]
fn limit_truncates() {
    let mut engine = Engine::new();
    let store = engine.open_memory().unwrap();
    for _ in 0..3 {
        engine.create(&store, json(vec![("type", s("thought"))])).unwrap();
    }
    assert_eq!(engine.query(&store, Query::new().with_limit(1)).unwrap().len(), 1);
    assert_eq!(engine.query(&store, Query::new().with_type("thought").with_limit(2)).unwrap().len(), 2);
    assert_eq!(engine.query(&store, Query::new().with_limit(3)).unwrap().len(), 3);
    assert_eq!(engine.query(&store, Query::new().with_limit(10)).unwrap().len(), 3);
    assert_eq!(engine.query(&store, Query::new().with_limit(0)).unwrap().len(), 0);
    assert_eq!(count(&mut engine, &store), 3);
}

#[test]
fn filter_values_are_data_not_statements() {
    let mut engine = Engine::new();
    let store = engine.open_memory().unwrap();
    let hostile = "x' OR '1'='1";
    engine.create(&store, json(vec![("type", s("thought"))])).unwrap();
    let odd = engine.create(&store, json(vec![("type", s(hostile))])).unwrap();
    assert_eq!(ids_of(&engine.query(&store, Query::new().with_type(hostile)).unwrap()), vec![odd]);
    assert!(engine.query(&store, Query::new().with_tag(hostile)).unwrap().is_empty());
    assert_eq!(engine.get(&store, "'; DROP TABLE objects; --").unwrap(), None);
    assert_eq!(count(&mut engine, &store), 2);
}

#[test]
fn opening_a_location_again_keeps_its_rows() {
    let location = format!("/tmp/habitat-{}.db", uuid::Uuid::new_v4());
    let id = {
        let mut engine = Engine::new();
        let store = engine.open(&location).unwrap();
        engine.create(&store, json(vec![("type", s("kept"))])).unwrap()
    };
    let mut engine = Engine::new();
    let store = engine.open(&location).unwrap();
    let again = engine.open(&location).unwrap();
    assert_eq!(count(&mut engine, &store), 1);
    let found = engine.get(&again, &id).unwrap().unwrap();
    assert_eq!(found.object_type(), Some("kept"));
}

#[test]
fn opening_runs_the_schema_twice_without_failing() {
    let mut engine = Engine::new();
    let store = engine.open_memory().unwrap();
    engine.create(&store, Json::Null).unwrap();
    for statement in [rhi_zone_habitat_core::statement::CREATE_TABLE, rhi_zone_habitat_core::statement::CREATE_INDEX] {
        let answer = engine.perform(&Action::Execute(rhi_zone_habitat_core::Statement {
            sql: statement.to_string(),
            params: vec![],
        }));
        assert!(matches!(answer, Answer::Changed(_)), "{:?}", answer);
    }
    assert_eq!(count(&mut engine, &store), 1);
}

#[test]
fn an_engine_failure_is_a_database_error() {
    let mut engine = Engine::new();
    match engine.open("/no/such/directory/at/all/habitat.db") {
        Err(Error::Database(said)) => assert!(!said.is_empty()),
        other => panic!("{:?}", other),
    }
    let mut engine = Engine::new();
    let store = engine.open_memory().unwrap();
    let pending = store.create_with("fixed".to_string(), "{}".to_string());
    assert_eq!(engine.run(pending), Ok(Reply::Created("fixed".to_string())));
    let twice = store.create_with("fixed".to_string(), "{}".to_string());
    assert!(matches!(engine.run(twice), Err(Error::Database(_))));
    let malformed = store.create_with("other".to_string(), "{not json".to_string());
    assert!(matches!(engine.run(malformed), Err(Error::Database(_))));
    assert_eq!(count(&mut engine, &store), 1);
}
