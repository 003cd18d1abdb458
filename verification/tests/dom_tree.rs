//! Element tree model: navigation, attributes, mutation and events.

use sciter::dom::{Dom, Element};
use sciter::event::{BehaviorEvent, ClickReason};

fn small_tree(dom: &mut Dom) -> (Element, Element, Element, Element) {
    // <html> with two children <head> and <body>, body holding <div>
    let html = Element::create(dom, "html").unwrap();
    let head = Element::create(dom, "head").unwrap();
    let body = Element::create(dom, "body").unwrap();
    let div = Element::create(dom, "div").unwrap();
    html.append(dom, &head).unwrap();
    html.append(dom, &body).unwrap();
    body.append(dom, &div).unwrap();
    (html, head, body, div)
}

#[test]
fn navigation() {
    let mut dom = Dom::new();
    let (html, head, body, div) = small_tree(&mut dom);

    assert_eq!(html.len(&dom), 2);
    let first = html.first_child(&mut dom).unwrap();
    assert_eq!(first.as_ptr(), head.as_ptr());
    let last = html.last_child(&mut dom).unwrap();
    assert_eq!(last.as_ptr(), body.as_ptr());

    assert_eq!(head.index(&dom), 0);
    assert_eq!(body.index(&dom), 1);

    let next = head.next_sibling(&mut dom).unwrap();
    assert_eq!(next.as_ptr(), body.as_ptr());
    let prev = body.prev_sibling(&mut dom).unwrap();
    assert_eq!(prev.as_ptr(), head.as_ptr());
    assert!(head.prev_sibling(&mut dom).is_none());
    assert!(body.next_sibling(&mut dom).is_none());

    let root = div.root(&mut dom);
    assert_eq!(root.as_ptr(), html.as_ptr());
    let parent = div.parent(&mut dom).unwrap();
    assert_eq!(parent.as_ptr(), body.as_ptr());
    assert!(html.parent(&mut dom).is_none());

    let fs = body.first_sibling(&mut dom).unwrap();
    assert_eq!(fs.as_ptr(), head.as_ptr());
    let ls = head.last_sibling(&mut dom).unwrap();
    assert_eq!(ls.as_ptr(), body.as_ptr());
}

#[test]
fn tags_and_text() {
    let mut dom = Dom::new();
    let el = Element::create(&mut dom, "p").unwrap();
    assert_eq!(el.get_tag(&dom), "p");
    assert_eq!(el.get_text(&dom), "");
    el.set_text(&mut dom, "Hello").unwrap();
    assert_eq!(el.get_text(&dom), "Hello");
}

#[test]
fn attributes() {
    let mut dom = Dom::new();
    let el = Element::create(&mut dom, "input").unwrap();
    assert_eq!(el.get_attribute(&dom, "type"), None);
    el.set_attribute(&mut dom, "type", "checkbox").unwrap();
    assert_eq!(el.get_attribute(&dom, "type"), Some(String::from("checkbox")));
    el.set_attribute(&mut dom, "type", "radio").unwrap();
    assert_eq!(el.get_attribute(&dom, "type"), Some(String::from("radio")));
    assert_eq!(el.attribute_count(&dom), 1);

    el.set_attribute(&mut dom, "name", "pick").unwrap();
    assert_eq!(el.attribute_count(&dom), 2);
    assert_eq!(el.get_attribute(&dom, "name"), Some(String::from("pick")));

    el.remove_attribute(&mut dom, "type").unwrap();
    assert_eq!(el.get_attribute(&dom, "type"), None);
    assert_eq!(el.get_attribute(&dom, "name"), Some(String::from("pick")));

    el.toggle_attribute(&mut dom, "checked", true, Some("yes")).unwrap();
    assert_eq!(el.get_attribute(&dom, "checked"), Some(String::from("yes")));
    el.toggle_attribute(&mut dom, "checked", false, None).unwrap();
    assert_eq!(el.get_attribute(&dom, "checked"), None);

    el.clear_attributes(&mut dom).unwrap();
    assert_eq!(el.attribute_count(&dom), 0);
}

#[test]
fn style_attributes() {
    let mut dom = Dom::new();
    let el = Element::create(&mut dom, "div").unwrap();
    assert_eq!(el.get_style_attribute(&dom, "behavior"), "");
    el.set_style_attribute(&mut dom, "behavior", "custom-button").unwrap();
    assert_eq!(el.get_style_attribute(&dom, "behavior"), "custom-button");
}

#[test]
fn mutation() {
    let mut dom = Dom::new();
    let (html, _head, body, div) = small_tree(&mut dom);

    // popping removes the last child and hands it back
    let popped = body.pop(&mut dom).unwrap();
    assert_eq!(popped.as_ptr(), div.as_ptr());
    assert_eq!(body.len(&dom), 0);
    assert!(body.pop(&mut dom).is_none());

    // the popped element is detached and can go elsewhere
    html.push(&mut dom, popped).unwrap();
    assert_eq!(html.len(&dom), 3);

    // an attached child is refused
    assert!(body.append(&mut dom, &div).is_err());

    div.detach(&mut dom).unwrap();
    assert_eq!(html.len(&dom), 2);

    // clear empties children and text
    html.set_text(&mut dom, "x").unwrap();
    html.clear(&mut dom).unwrap();
    assert_eq!(html.len(&dom), 0);
    assert_eq!(html.get_text(&dom), "");
}

#[test]
fn insert_position() {
    let mut dom = Dom::new();
    let list = Element::create(&mut dom, "ul").unwrap();
    let a = Element::create(&mut dom, "li").unwrap();
    let b = Element::create(&mut dom, "li").unwrap();
    let c = Element::create(&mut dom, "li").unwrap();
    list.append(&mut dom, &a).unwrap();
    list.append(&mut dom, &c).unwrap();
    list.insert(&mut dom, 1, &b).unwrap();
    let kids = [
        list.get(&mut dom, 0).unwrap().as_ptr(),
        list.get(&mut dom, 1).unwrap().as_ptr(),
        list.get(&mut dom, 2).unwrap().as_ptr(),
    ];
    assert_eq!(kids, [a.as_ptr(), b.as_ptr(), c.as_ptr()]);
    assert!(list.get(&mut dom, 3).is_none());
}

#[test]
fn selectors() {
    let mut dom = Dom::new();
    let (html, head, body, div) = small_tree(&mut dom);

    assert!(div.test(&dom, "div"));
    assert!(!div.test(&dom, "span"));

    let found = html.find_first(&mut dom, "div").unwrap().unwrap();
    assert_eq!(found.as_ptr(), div.as_ptr());
    assert!(html.find_first(&mut dom, "table").unwrap().is_none());

    // searching below a sibling subtree misses it
    assert!(head.find_first(&mut dom, "div").unwrap().is_none());

    let all = html.find_all(&mut dom, "body").unwrap().unwrap();
    assert_eq!(all.len(), 1);
    assert_eq!(all[0].as_ptr(), body.as_ptr());
    let none = html.find_all(&mut dom, "table").unwrap().unwrap();
    assert!(none.is_empty());

    let nearest = div.find_nearest_parent(&mut dom, "html").unwrap().unwrap();
    assert_eq!(nearest.as_ptr(), html.as_ptr());
    let self_match = div.find_nearest_parent(&mut dom, "div").unwrap().unwrap();
    assert_eq!(self_match.as_ptr(), div.as_ptr());
    assert!(div.find_nearest_parent(&mut dom, "table").unwrap().is_none());
}

#[test]
fn handle_use_counts() {
    let mut dom = Dom::new();
    let el = Element::create(&mut dom, "div").unwrap();
    let idx = (el.as_ptr() - 1) as usize;
    assert_eq!(dom.uses[idx], 1);
    let copy = el.retain(&mut dom);
    assert_eq!(dom.uses[idx], 2);
    copy.release(&mut dom);
    assert_eq!(dom.uses[idx], 1);

    // a bad handle gives the null element and changes nothing
    let null = Element::from(&mut dom, 999);
    assert!(null.is_null());
}

#[test]
fn fire_event_and_timers() {
    let mut dom = Dom::new();
    let el = Element::create(&mut dom, "button").unwrap();
    el.fire_event(
        &mut dom,
        el.as_ptr(),
        el.as_ptr(),
        BehaviorEvent::ButtonClick,
        ClickReason::Synthesized,
        false,
        None,
    )
    .unwrap();
    assert_eq!(dom.events.len(), 1);
    assert_eq!(dom.events[0].params.cmd, 0x00);
    assert_eq!(dom.events[0].params.reason, 2); // synthesized
    assert!(!dom.events[0].post);

    el.start_timer(&mut dom, 16, 1).unwrap();
    el.stop_timer(&mut dom, 1).unwrap();
    assert_eq!(dom.timers.len(), 2);
    assert_eq!(dom.timers[0], (el.as_ptr(), 1, 16));
    assert_eq!(dom.timers[1], (el.as_ptr(), 1, 0));
}

#[test]
fn display_text() {
    let mut dom = Dom::new();
    let el = Element::create(&mut dom, "button").unwrap();
    assert_eq!(el.display_text(&dom), "button");
    el.set_attribute(&mut dom, "id", "go").unwrap();
    el.set_attribute(&mut dom, "class", "wide").unwrap();
    el.set_attribute(&mut dom, "type", "custom-button").unwrap();
    el.set_attribute(&mut dom, "name", "start").unwrap();
    assert_eq!(el.display_text(&dom), "button#go.wide|custom-button(start)");

    let null = Element { he: 0 };
    assert_eq!(null.display_text(&dom), "None");
}

#[test]
fn document_order_search() {
    // children appended out of creation order: the search follows the
    // tree's traversal order, not the order the nodes were made in
    let mut dom = Dom::new();
    let list = Element::create(&mut dom, "ul").unwrap();
    let a = Element::create(&mut dom, "li").unwrap();
    let b = Element::create(&mut dom, "li").unwrap();
    list.append(&mut dom, &b).unwrap(); // b first in the document
    list.append(&mut dom, &a).unwrap();

    let first = list.find_first(&mut dom, "li").unwrap().unwrap();
    assert_eq!(first.as_ptr(), b.as_ptr());

    let all = list.find_all(&mut dom, "li").unwrap().unwrap();
    assert_eq!(all.len(), 2);
    assert_eq!(all[0].as_ptr(), b.as_ptr());
    assert_eq!(all[1].as_ptr(), a.as_ptr());
}

#[test]
fn find_all_is_complete() {
    let mut dom = Dom::new();
    let (html, _head, body, div) = small_tree(&mut dom);
    let extra = Element::create(&mut dom, "div").unwrap();
    body.append(&mut dom, &extra).unwrap();

    let divs = html.find_all(&mut dom, "div").unwrap().unwrap();
    assert_eq!(divs.len(), 2);
    assert_eq!(divs[0].as_ptr(), div.as_ptr());
    assert_eq!(divs[1].as_ptr(), extra.as_ptr());
}

#[test]
fn swap_positions() {
    let mut dom = Dom::new();
    let (html, head, body, _div) = small_tree(&mut dom);
    // head and body trade places under html
    head.swap(&mut dom, &body).unwrap();
    let first = html.first_child(&mut dom).unwrap();
    assert_eq!(first.as_ptr(), body.as_ptr());
    let last = html.last_child(&mut dom).unwrap();
    assert_eq!(last.as_ptr(), head.as_ptr());

    // a detached element cannot be swapped
    let loose = Element::create(&mut dom, "p").unwrap();
    assert!(head.swap(&mut dom, &loose).is_err());
}

#[test]
fn build_helpers() {
    let mut dom = Dom::new();
    let root = Element::create(&mut dom, "html").unwrap();
    let p = Element::create_at(&mut dom, "p", &root).unwrap();
    assert_eq!(root.len(&dom), 1);
    assert_eq!(p.get_tag(&dom), "p");

    let hello = Element::with_text(&mut dom, "p", "Hello").unwrap();
    assert_eq!(hello.get_text(&dom), "Hello");

    let button = Element::with_type(&mut dom, "input", "button").unwrap();
    assert_eq!(button.get_attribute(&dom, "type"), Some(String::from("button")));

    assert_eq!(p.get_uid(), p.as_ptr() as u32);
}

#[test]
fn clone_and_destroy() {
    let mut dom = Dom::new();
    let (_html, _head, body, div) = small_tree(&mut dom);
    div.set_text(&mut dom, "content").unwrap();
    div.set_attribute(&mut dom, "id", "box").unwrap();

    let copy = div.clone_element(&mut dom).unwrap();
    assert_eq!(copy.get_tag(&dom), "div");
    assert_eq!(copy.get_text(&dom), "content");
    assert_eq!(copy.get_attribute(&dom, "id"), Some(String::from("box")));
    // the copy is disconnected
    assert!(copy.parent(&mut dom).is_none());

    div.destroy(&mut dom).unwrap();
    assert_eq!(body.len(&dom), 0);
    assert_eq!(div.get_text(&dom), "");
    assert_eq!(div.get_attribute(&dom, "id"), None);
}
