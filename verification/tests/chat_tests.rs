use legalminds_frontend::chat::{classify_chat_message, read_chat_message, ChatInput, ChatTool, UsageTopic};

fn read(s: &str) -> ChatInput {
    read_chat_message(s).unwrap()
}

fn usage(topic: UsageTopic) -> ChatInput {
    ChatInput::Usage { topic }
}

#[test]
fn blank_messages_ask_for_nothing() {
    assert_eq!(read("   "), ChatInput::Blank);
    assert_eq!(read(""), ChatInput::Blank);
}

#[test]
fn simple_commands() {
    assert_eq!(read("/help"), ChatInput::Help);
    assert_eq!(read(" /H "), ChatInput::Help);
    assert_eq!(read("/case  c-42 "), ChatInput::SwitchCase { case_id: "c-42".to_string() });
    assert_eq!(read("/case"), usage(UsageTopic::Case));
    assert_eq!(read("/search 合同 原件"), ChatInput::Search { query: "合同 原件".to_string() });
    assert_eq!(read("/search"), ChatInput::Search { query: String::new() });
    assert_eq!(read("/tags a,b"), ChatInput::FilterTags { tags: "a,b".to_string() });
    assert_eq!(read("/tags"), ChatInput::FilterTags { tags: String::new() });
    assert_eq!(read("/jump 2024-01-10"), ChatInput::Jump { date: "2024-01-10".to_string() });
    assert_eq!(read("/jump"), usage(UsageTopic::Jump));
    assert_eq!(
        read("/create 2024-01-10 合同签署 | tags=a"),
        ChatInput::CreateNode { args: "2024-01-10 合同签署 | tags=a".to_string() }
    );
    assert_eq!(read("/c x"), ChatInput::CreateNode { args: "x".to_string() });
    assert_eq!(read("/dedupe"), ChatInput::Dedupe);
    assert_eq!(read("/rels"), ChatInput::Relationships);
    assert_eq!(read("/Relationships"), ChatInput::Relationships);
    assert_eq!(read("/graph"), ChatInput::Graph);
    assert_eq!(read("/unknown x"), ChatInput::UnknownCommand);
    assert_eq!(read("/"), ChatInput::UnknownCommand);
}

#[test]
fn open_command() {
    assert_eq!(read("/open Person p-1"), ChatInput::OpenPerson { person_id: "p-1".to_string() });
    assert_eq!(read("/open node n-1"), ChatInput::OpenNode { node_id: "n-1".to_string() });
    assert_eq!(read("/open n-2"), ChatInput::OpenNode { node_id: "n-2".to_string() });
    assert_eq!(read("/open person "), ChatInput::OpenNode { node_id: "person".to_string() });
    assert_eq!(read("/open"), usage(UsageTopic::Open));
}

#[test]
fn history_command() {
    assert_eq!(
        read("/history file f-1"),
        ChatInput::History { target_type: "evidence_file".to_string(), target_id: "f-1".to_string() }
    );
    assert_eq!(
        read("/history Evidence f-2"),
        ChatInput::History { target_type: "evidence_file".to_string(), target_id: "f-2".to_string() }
    );
    assert_eq!(
        read("/history NODE n1 extra"),
        ChatInput::History { target_type: "node".to_string(), target_id: "n1".to_string() }
    );
    assert_eq!(read("/history node"), usage(UsageTopic::History));
    assert_eq!(read("/history"), usage(UsageTopic::History));
}

#[test]
fn merge_and_relate_commands() {
    assert_eq!(
        read("/merge p1  p2"),
        ChatInput::Merge { source: "p1".to_string(), target: "p2".to_string() }
    );
    assert_eq!(read("/merge p1 p1"), ChatInput::MergeIntoItself);
    assert_eq!(read("/merge p1"), usage(UsageTopic::Merge));
    assert_eq!(
        read("/rel p1 p2 spouse since  2001"),
        ChatInput::Relate {
            from: "p1".to_string(),
            to: "p2".to_string(),
            rel_type: "spouse".to_string(),
            detail: Some("since 2001".to_string()),
        }
    );
    assert_eq!(
        read("/rel p1 p2 spouse"),
        ChatInput::Relate {
            from: "p1".to_string(),
            to: "p2".to_string(),
            rel_type: "spouse".to_string(),
            detail: None,
        }
    );
    assert_eq!(read("/rel p1 p1 x"), ChatInput::RelateToItself);
    assert_eq!(read("/rel p1 p2"), usage(UsageTopic::Relate));
}

fn tool(t: ChatTool) -> ChatInput {
    ChatInput::OpenTool { tool: t, query: None }
}

#[test]
fn free_text_names_a_tool() {
    assert_eq!(read("帮我创建节点"), tool(ChatTool::CreateNode));
    assert_eq!(read("Please EXPORT it"), tool(ChatTool::Exports));
    assert_eq!(read("编辑一下"), tool(ChatTool::FocusNode));
    assert_eq!(read("Move it"), tool(ChatTool::FocusNode));
    assert_eq!(read("链接证据"), tool(ChatTool::FocusNode));
    assert_eq!(read("UPLOAD"), tool(ChatTool::Files));
    assert_eq!(read("查看人物"), tool(ChatTool::Persons));
    assert_eq!(read("search for x"), tool(ChatTool::Search));
    assert_eq!(read("hello"), ChatInput::Chatter);
    assert_eq!(read("ÉXPORT"), ChatInput::Chatter);
}

#[test]
fn free_text_search_keeps_its_keyword() {
    assert_eq!(
        read(" 搜索 合同 "),
        ChatInput::OpenTool { tool: ChatTool::Search, query: Some("合同".to_string()) }
    );
    assert_eq!(
        read("搜索搜索 x"),
        ChatInput::OpenTool { tool: ChatTool::Search, query: Some("x".to_string()) }
    );
    assert_eq!(read("搜索"), ChatInput::OpenTool { tool: ChatTool::Search, query: None });
}

#[test]
fn keywords_come_from_the_lowered_text() {
    assert_eq!(classify_chat_message("Hello", "create"), tool(ChatTool::CreateNode));
    assert_eq!(classify_chat_message("/graph", "anything"), ChatInput::Graph);
    assert_eq!(
        classify_chat_message("abcdefgh kw", "/search kw"),
        ChatInput::OpenTool { tool: ChatTool::Search, query: Some("h kw".to_string()) }
    );
}
