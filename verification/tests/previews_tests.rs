use legalminds_frontend::models::TimelineNode;
use legalminds_frontend::previews::{
    node_editor_fields,
    confirm_pending, focus_node_id, is_read_only, link_evidence_preview, parse_i64,
    preview_create_node, preview_create_relationship, preview_delete_node,
    preview_link_evidence, preview_merge_case_persons, preview_move_node, preview_person_create,
    preview_person_delete, preview_person_link_case, preview_person_notes, preview_update_node,
    preview_upload_file, ChatMode, Confirmation, PendingAction, PersonForm, MAX_UPLOAD_BYTES,
};

fn s(x: &str) -> String {
    x.to_string()
}

#[test]
fn integers_as_std_reads_them() {
    assert_eq!(parse_i64("42"), Some(42));
    assert_eq!(parse_i64("-7"), Some(-7));
    assert_eq!(parse_i64("+8"), Some(8));
    assert_eq!(parse_i64("007"), Some(7));
    assert_eq!(parse_i64("9223372036854775807"), Some(i64::MAX));
    assert_eq!(parse_i64("-9223372036854775808"), Some(i64::MIN));
    assert_eq!(parse_i64("9223372036854775808"), None);
    assert_eq!(parse_i64("-9223372036854775809"), None);
    assert_eq!(parse_i64("99999999999999999999999999"), None);
    assert_eq!(parse_i64(""), None);
    assert_eq!(parse_i64("-"), None);
    assert_eq!(parse_i64("+"), None);
    assert_eq!(parse_i64("1_000"), None);
    assert_eq!(parse_i64(" 1"), None);
    assert_eq!(parse_i64("1a"), None);
    for t in ["0", "-0", "12345", "-99", "+1", "x", "--1"] {
        assert_eq!(parse_i64(t), t.parse::<i64>().ok(), "{t}");
    }
}

#[test]
fn who_may_write_and_what_is_in_focus() {
    assert!(!is_read_only(Some("owner")));
    assert!(!is_read_only(Some("member")));
    assert!(is_read_only(Some("viewer")));
    assert!(is_read_only(None));
    assert_eq!(focus_node_id(true, Some(s("a")), Some(s("b"))), Some(s("a")));
    assert_eq!(focus_node_id(false, Some(s("a")), Some(s("b"))), Some(s("b")));
    assert_eq!(confirm_pending(false, false, ChatMode::Execute), Confirmation::Nothing);
    assert_eq!(confirm_pending(true, true, ChatMode::Execute), Confirmation::ReadOnly);
    assert_eq!(confirm_pending(true, false, ChatMode::Qa), Confirmation::NotExecuting);
    assert_eq!(confirm_pending(true, false, ChatMode::Execute), Confirmation::Run);
}

#[test]
fn node_previews() {
    assert_eq!(
        preview_create_node("tok", "c1", " 标题 ", "2024-01-10", "  ", "a, b"),
        Ok(PendingAction::CreateNode {
            title: s("标题"),
            description: None,
            event_time: s("2024-01-10"),
            tags: vec![s("a"), s("b")],
        })
    );
    assert_eq!(
        preview_create_node("", "c1", "t", "d", "", ""),
        Err(s("需要先填写 Access Token 和 Case ID。"))
    );
    assert_eq!(
        preview_create_node("tok", "c1", "t", " ", "", ""),
        Err(s("创建节点需要 title + event_time。"))
    );
    assert_eq!(
        preview_update_node(Some(s("n1")), "新标题", " 说明 ", "", " "),
        Ok(PendingAction::UpdateNode {
            node_id: s("n1"),
            title: s("新标题"),
            description: Some(s("说明")),
            event_time: None,
            tags: Some(vec![]),
        })
    );
    assert_eq!(preview_update_node(None, "t", "", "", ""), Err(s("请先在时间轴上选中一个节点。")));
    assert_eq!(preview_update_node(Some(s("n1")), " ", "", "", ""), Err(s("title 不能为空。")));
}

#[test]
fn move_previews() {
    assert_eq!(
        preview_move_node(Some(s("n1")), " 2024-02-01 ", " -5 "),
        Ok(PendingAction::MoveNode { node_id: s("n1"), new_time: s("2024-02-01"), new_sort_order: Some(1) })
    );
    assert_eq!(
        preview_move_node(Some(s("n1")), "2024-02-01", "12"),
        Ok(PendingAction::MoveNode { node_id: s("n1"), new_time: s("2024-02-01"), new_sort_order: Some(12) })
    );
    assert_eq!(
        preview_move_node(Some(s("n1")), "2024-02-01", ""),
        Ok(PendingAction::MoveNode { node_id: s("n1"), new_time: s("2024-02-01"), new_sort_order: None })
    );
    assert_eq!(preview_move_node(Some(s("n1")), "2024-02-01", "x"), Err(s("new_sort_order 必须是数字。")));
    assert_eq!(preview_move_node(Some(s("n1")), "", "1"), Err(s("移动节点需要 new_time。")));
    assert_eq!(preview_move_node(None, "d", "1"), Err(s("请先在时间轴上选中一个节点。")));
    assert_eq!(
        preview_delete_node(Some((s("n1"), s("付款节点")))),
        Ok(PendingAction::DeleteNode { node_id: s("n1"), title: s("付款节点") })
    );
    assert_eq!(preview_delete_node(None), Err(s("请先在时间轴上选中一个节点。")));
}

#[test]
fn evidence_link_previews() {
    assert_eq!(
        preview_link_evidence(Some(s("n1")), " e1 ", " page ", " {\"page\": 3} "),
        Ok(PendingAction::LinkEvidence {
            node_id: s("n1"),
            evidence_id: s("e1"),
            anchor_type: s("page"),
            anchor_data: Some(s("{\"page\": 3}")),
        })
    );
    assert_eq!(
        preview_link_evidence(Some(s("n1")), "e1", "page", ""),
        Ok(PendingAction::LinkEvidence { node_id: s("n1"), evidence_id: s("e1"), anchor_type: s("page"), anchor_data: None })
    );
    let bad = preview_link_evidence(Some(s("n1")), "e1", "page", "{oops");
    assert!(matches!(&bad, Err(m) if m.starts_with("anchor_data JSON 不合法: ") && m.len() > "anchor_data JSON 不合法: ".len()));
    assert_eq!(preview_link_evidence(Some(s("n1")), " ", "page", ""), Err(s("Evidence ID 不能为空。")));
    assert_eq!(preview_link_evidence(Some(s("n1")), "e1", "", ""), Err(s("Anchor type 不能为空。")));
    assert_eq!(
        link_evidence_preview(Some(s("n1")), "e1", "page", "x", Some(s("bad"))),
        Err(s("anchor_data JSON 不合法: bad"))
    );
    assert_eq!(
        link_evidence_preview(Some(s("n1")), "e1", "page", " ", Some(s("bad"))),
        Ok(PendingAction::LinkEvidence { node_id: s("n1"), evidence_id: s("e1"), anchor_type: s("page"), anchor_data: None })
    );
}

#[test]
fn upload_previews() {
    let ok = preview_upload_file(false, "tok", "c1", Some((s("a.pdf"), vec![1, 2])));
    assert_eq!(ok, Ok(PendingAction::UploadEvidenceFile { file_name: s("a.pdf"), bytes: vec![1, 2] }));
    assert_eq!(
        preview_upload_file(true, "tok", "c1", None),
        Err(s("当前为只读权限，无法上传文件。"))
    );
    assert_eq!(preview_upload_file(false, "tok", "c1", None), Err(s("请先选择一个文件。")));
    assert_eq!(MAX_UPLOAD_BYTES, 100 * 1024 * 1024);
    let big = vec![0u8; MAX_UPLOAD_BYTES + 1];
    assert_eq!(
        preview_upload_file(false, "tok", "c1", Some((s("big.bin"), big))),
        Err(s("文件过大（最大 100MB）。"))
    );
}

#[test]
fn person_previews() {
    assert_eq!(
        preview_person_notes(false, Some(s("p1")), None, " 备注 "),
        Ok(PendingAction::UpdatePersonNotes { person_id: s("p1"), person_name: s("p1"), notes: s(" 备注 ") })
    );
    assert_eq!(
        preview_person_delete(false, Some(s("p1")), Some(s("张三"))),
        Ok(PendingAction::DeletePerson { person_id: s("p1"), person_name: s("张三") })
    );
    assert_eq!(preview_person_delete(false, None, None), Err(s("请先在人物列表里打开一个人物。")));
    assert_eq!(preview_person_notes(true, Some(s("p1")), None, ""), Err(s("当前为只读权限，无法修改人物信息。")));
    assert_eq!(
        preview_person_link_case(false, Some(s("p1")), Some(s("张三")), " c2 ", " witness ", "", " 2024-01-01 "),
        Ok(PendingAction::LinkPersonCase {
            person_id: s("p1"),
            person_name: s("张三"),
            case_id: s("c2"),
            role_type: s("witness"),
            role_detail: None,
            involved_date: Some(s("2024-01-01")),
        })
    );
    assert_eq!(
        preview_person_link_case(false, Some(s("p1")), None, "c2", " ", "", ""),
        Err(s("Role type 不能为空。"))
    );
    let form = PersonForm {
        name: s(" 李四 "),
        gender: s(""),
        phone: s(" 123 "),
        email: s(""),
        organization: s("律所"),
        position: s(""),
        role_type: s("plaintiff"),
        role_detail: s(""),
        involved_date: s(""),
    };
    assert_eq!(
        preview_person_create(false, "tok", "c1", &form),
        Ok(PendingAction::CreatePerson {
            name: s("李四"),
            gender: None,
            phone: Some(s("123")),
            email: None,
            organization: Some(s("律所")),
            position: None,
            role_type: Some(s("plaintiff")),
            role_detail: None,
            involved_date: None,
        })
    );
    let nameless = PersonForm { name: s(" "), ..form };
    assert_eq!(preview_person_create(false, "tok", "c1", &nameless), Err(s("Name 不能为空。")));
}

#[test]
fn merge_and_relationship_previews() {
    assert_eq!(
        preview_merge_case_persons(false, "tok", "c1", " p1 ", "p2"),
        Ok(PendingAction::MergeCasePersons { source_person_id: s("p1"), target_person_id: s("p2") })
    );
    assert_eq!(
        preview_merge_case_persons(false, "tok", "c1", "p1", " p1 "),
        Err(s("Source/Target Person ID 不能相同。"))
    );
    assert_eq!(
        preview_merge_case_persons(false, "tok", "c1", "", "p1"),
        Err(s("Source/Target Person ID 不能为空。"))
    );
    assert_eq!(
        preview_create_relationship(false, "tok", "c1", "p1", "p2", " spouse ", " 2001 "),
        Ok(PendingAction::CreatePersonRelationship {
            from_person_id: s("p1"),
            to_person_id: s("p2"),
            rel_type: s("spouse"),
            rel_detail: Some(s("2001")),
        })
    );
    assert_eq!(
        preview_create_relationship(false, "tok", "c1", "p1", "p2", " ", ""),
        Err(s("rel_type 不能为空。"))
    );
    assert_eq!(
        preview_create_relationship(false, "tok", "c1", "p1", "p1", "x", ""),
        Err(s("From/To Person ID 不能相同。"))
    );
    assert_eq!(
        preview_create_relationship(true, "tok", "c1", "p1", "p2", "x", ""),
        Err(s("当前为只读权限，无法创建人物关系。"))
    );
}

#[test]
fn editor_is_filled_from_a_node() {
    let node = TimelineNode {
        id: s("n1"),
        case_id: s("c1"),
        title: s("付款"),
        description: None,
        event_time: s("2024-01-10"),
        sort_order: 1,
        tags: vec![s("a"), s("b")],
        evidence_links: vec![],
        created_at: s(""),
        updated_at: s(""),
    };
    let e = node_editor_fields(&node);
    assert_eq!(e.title, "付款");
    assert_eq!(e.description, "");
    assert_eq!(e.tags, "a,b");
    assert_eq!(e.move_date, "2024-01-10");
    assert_eq!(e.move_sort_order, "");
}
