use ffmpeg::filter::{Filter, Graph, Parser};
use ffmpeg::Error;

fn passthrough() -> Filter {
    Filter::new("null")
}

#[test]
fn duplicate_name_is_refused_and_graph_stays_usable() {
    let mut g = Graph::new();
    let f = passthrough();
    let first = g.add(&f, "a", "", 0).ok().expect("first add succeeds");
    assert_eq!(first.index(), 0);
    assert_eq!(g.add(&f, "a", "other", 0).err(), Some(Error::Backend(-22)));
    let b = g.add(&f, "b", "", 0).ok().expect("graph is still usable");
    assert_eq!(b.index(), 1);
    assert_eq!(g.dump(), "a: null()\nb: null()\n");
}

#[test]
fn get_finds_only_added_names() {
    let mut g = Graph::new();
    assert!(g.get("src").is_none());
    let c = g.add(&passthrough(), "src", "", 0).ok().expect("add succeeds");
    let found = g.get("src").expect("found after add");
    assert_eq!(found, c);
    assert!(g.get("sink").is_none());
    let node = g.node(found).expect("context refers into the graph");
    assert_eq!(node.name(), "src");
    assert_eq!(node.filter(), "null");
    assert_eq!(node.args(), "");
}

#[test]
fn dump_lists_nodes_in_order() {
    let mut g = Graph::new();
    assert_eq!(g.dump(), "");
    g.add(&Filter::new("scale"), "resize", "1280:720", 0).ok().expect("add");
    g.add(&Filter::new("anull"), "pass", "", 0).ok().expect("add");
    assert_eq!(g.dump(), "resize: scale(1280:720)\npass: anull()\n");
}

#[test]
fn discarded_parser_leaves_graph_alone() {
    let mut g = Graph::new();
    g.add(&passthrough(), "src", "", 0).ok().expect("add");
    {
        let p = g.input("src", 0).ok().expect("binding");
        drop(p);
    }
    let p = Parser::new(&g).output("src", 1).ok().expect("binding");
    drop(p);
    assert!(g.get("src").is_some());
    assert_eq!(g.dump(), "src: null()\n");
}

#[test]
fn end_to_end_bindings_then_empty_spec() {
    let mut g = Graph::new();
    g.add(&passthrough(), "src", "", 0).ok().expect("add src");
    g.add(&passthrough(), "sink", "", 0).ok().expect("add sink");
    let link = g
        .input("src", 0)
        .ok()
        .expect("src exists")
        .output("sink", 0)
        .ok()
        .expect("sink exists")
        .parse("")
        .ok()
        .expect("spec holds no NUL");
    assert_eq!(link.spec(), "");
    assert_eq!(link.inputs().len(), 1);
    assert_eq!(link.inputs()[0].name(), "src");
    assert_eq!(link.inputs()[0].node(), 0);
    assert_eq!(link.inputs()[0].pad(), 0);
    assert_eq!(link.outputs().len(), 1);
    assert_eq!(link.outputs()[0].name(), "sink");
    assert_eq!(link.outputs()[0].node(), 1);
    assert!(!g.is_configured());
    assert_eq!(g.validate(0), Ok(()));
    assert!(g.is_configured());
}

#[test]
fn bindings_keep_their_order() {
    let mut g = Graph::new();
    g.add(&passthrough(), "a", "", 0).ok().expect("add");
    g.add(&passthrough(), "b", "", 0).ok().expect("add");
    let link = Parser::new(&g)
        .input("b", 2)
        .ok()
        .expect("b")
        .input("a", 1)
        .ok()
        .expect("a")
        .parse("[in]null[out]")
        .ok()
        .expect("spec holds no NUL");
    let names: Vec<&str> = link.inputs().iter().map(|b| b.name()).collect();
    assert_eq!(names, vec!["b", "a"]);
    assert_eq!(link.inputs()[0].pad(), 2);
    assert_eq!(link.inputs()[1].node(), 0);
    assert!(link.outputs().is_empty());
}

#[test]
fn binding_a_missing_node_is_invalid_data() {
    let mut g = Graph::new();
    g.add(&passthrough(), "src", "", 0).ok().expect("add");
    assert!(matches!(g.input("nowhere", 0), Err(Error::InvalidData)));
    assert!(matches!(g.output("nowhere", 0), Err(Error::InvalidData)));
    assert!(matches!(
        g.input("src", 0).ok().expect("src").output("gone", 0),
        Err(Error::InvalidData)
    ));
}

#[test]
fn spec_names_nodes_without_bindings() {
    let mut g = Graph::new();
    g.add(&passthrough(), "src", "", 0).ok().expect("add");
    let link = g.parse("[src]null[out]").ok().expect("spec holds no NUL");
    assert_eq!(link.spec(), "[src]null[out]");
    assert!(link.inputs().is_empty());
    assert!(link.outputs().is_empty());
}

#[test]
fn failed_configuration_is_reported() {
    let mut g = Graph::new();
    assert_eq!(g.validate(-22), Err(Error::Backend(-22)));
    assert!(!g.is_configured());
    assert_eq!(g.validate(-1094995529), Err(Error::InvalidData));
    assert_eq!(g.validate(0), Ok(()));
    assert!(g.is_configured());
    assert_eq!(g.validate(3), Ok(()));
    assert!(g.is_configured());
    g.add(&passthrough(), "late", "", 0).ok().expect("add");
    assert!(!g.is_configured());
}

#[test]
fn nul_in_name_or_args_is_refused() {
    let mut g = Graph::new();
    g.add(&passthrough(), "src", "", 0).ok().expect("add");
    assert_eq!(g.add(&passthrough(), "a\0b", "", 0).err(), Some(Error::InvalidData));
    assert_eq!(g.add(&passthrough(), "c", "x\0", 0).err(), Some(Error::InvalidData));
    assert_eq!(g.add(&Filter::new("nu\0ll"), "d", "", 0).err(), Some(Error::InvalidData));
    assert!(g.get("a\0b").is_none());
    assert!(g.get("src\0").is_none());
    assert_eq!(g.dump(), "src: null()\n");
}

#[test]
fn engine_refusal_leaves_graph_unchanged() {
    let mut g = Graph::new();
    assert_eq!(g.add(&Filter::new("scale"), "s", "bogus", -22).err(), Some(Error::Backend(-22)));
    assert_eq!(
        g.add(&Filter::new("scale"), "s", "bogus", -1094995529).err(),
        Some(Error::InvalidData)
    );
    assert!(g.get("s").is_none());
    assert_eq!(g.dump(), "");
    let c = g.add(&Filter::new("scale"), "s", "640:480", 0).ok().expect("created");
    assert_eq!(c.index(), 0);
}

#[test]
fn admits_reports_refusals_without_changing_graph() {
    let mut g = Graph::new();
    let f = passthrough();
    assert_eq!(g.admits(&f, "a", ""), Ok(()));
    g.add(&f, "a", "", 0).ok().expect("add");
    assert_eq!(g.admits(&f, "a", ""), Err(Error::Backend(-22)));
    assert_eq!(g.admits(&f, "b\0", ""), Err(Error::InvalidData));
    assert_eq!(g.admits(&f, "b", ""), Ok(()));
    assert_eq!(g.nodes().len(), 1);
}

#[test]
fn spec_with_nul_is_invalid_data() {
    let mut g = Graph::new();
    g.add(&passthrough(), "src", "", 0).ok().expect("add");
    assert!(matches!(g.parse("null\0"), Err(Error::InvalidData)));
    let p = g.input("src", 0).ok().expect("src exists");
    assert!(matches!(p.parse("[src]\0null"), Err(Error::InvalidData)));
    assert!(g.parse("null").is_ok());
}

#[test]
fn pad_beyond_engine_range_is_invalid_data() {
    let mut g = Graph::new();
    g.add(&passthrough(), "src", "", 0).ok().expect("add");
    assert!(matches!(g.input("src", 2147483648), Err(Error::InvalidData)));
    assert!(matches!(g.output("src", usize::MAX), Err(Error::InvalidData)));
    let p = g.input("src", 2147483647).ok().expect("largest pad fits");
    let link = p.parse("").ok().expect("spec holds no NUL");
    assert_eq!(link.inputs()[0].pad(), 2147483647);
}

#[test]
fn collision_is_reported_before_nul_in_arguments() {
    let mut g = Graph::new();
    g.add(&passthrough(), "a", "", 0).ok().expect("add");
    assert_eq!(g.add(&Filter::new("nu\0ll"), "a", "x\0", -5).err(), Some(Error::Backend(-22)));
    assert_eq!(g.nodes().len(), 1);
}
