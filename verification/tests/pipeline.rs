use ip_tracker::pipeline::pipeline_of;
use ip_tracker::store::{StoreCommand, StoreWrite};
use redis::{Arg, Pipeline};

fn words(pipeline: &Pipeline) -> Vec<Vec<String>> {
    pipeline
        .cmd_iter()
        .map(|command| {
            command
                .args_iter()
                .map(|arg| match arg {
                    Arg::Simple(bytes) => String::from_utf8(bytes.to_vec()).unwrap(),
                    Arg::Cursor => panic!("a cursor"),
                })
                .collect()
        })
        .collect()
}

fn text(s: &str) -> String {
    s.to_string()
}

fn packed(parts: &[&str]) -> Vec<u8> {
    let mut out = format!("*{}\r\n", parts.len());
    for part in parts {
        out.push_str(&format!("${}\r\n{}\r\n", part.len(), part));
    }
    out.into_bytes()
}

#[test]
fn single_commands_on_the_wire() {
    let cases = vec![
        (StoreCommand::Exists { key: text("user:id") }, vec!["EXISTS", "user:id"]),
        (StoreCommand::Get { key: text("user:id") }, vec!["GET", "user:id"]),
        (
            StoreCommand::Put { key: text("user:id"), value: text("1000") },
            vec!["SET", "user:id", "1000"],
        ),
        (
            StoreCommand::HashGet { key: text("app:1"), field: text("token") },
            vec!["HGET", "app:1", "token"],
        ),
        (
            StoreCommand::HashPut {
                key: text("app:1"),
                field: text("address"),
                value: text("10.0.0.1"),
            },
            vec!["HSET", "app:1", "address", "10.0.0.1"],
        ),
        (StoreCommand::SetMembers { key: text("user:42") }, vec!["SMEMBERS", "user:42"]),
    ];
    for (command, expected) in cases {
        let pipeline = pipeline_of(&command);
        let expected_words: Vec<String> = expected.iter().map(|w| text(w)).collect();
        assert_eq!(words(&pipeline), vec![expected_words]);
        assert_eq!(pipeline.get_packed_pipeline(), packed(&expected));
    }
}

#[test]
fn batch_is_one_transaction_in_order() {
    let command = StoreCommand::Atomic {
        writes: vec![
            StoreWrite::HashPut { key: text("app:1000"), field: text("token"), value: text("1000:ab") },
            StoreWrite::HashPut { key: text("app:1000"), field: text("id"), value: text("42") },
            StoreWrite::Increment { key: text("user:id") },
            StoreWrite::SetAdd { key: text("user:42"), member: text("app:1000") },
        ],
    };
    let pipeline = pipeline_of(&command);
    assert_eq!(
        words(&pipeline),
        vec![
            vec![text("HSET"), text("app:1000"), text("token"), text("1000:ab")],
            vec![text("HSET"), text("app:1000"), text("id"), text("42")],
            vec![text("INCR"), text("user:id")],
            vec![text("SADD"), text("user:42"), text("app:1000")],
        ]
    );
    let mut expected = packed(&["MULTI"]);
    expected.extend(packed(&["HSET", "app:1000", "token", "1000:ab"]));
    expected.extend(packed(&["HSET", "app:1000", "id", "42"]));
    expected.extend(packed(&["INCR", "user:id"]));
    expected.extend(packed(&["SADD", "user:42", "app:1000"]));
    expected.extend(packed(&["EXEC"]));
    assert_eq!(pipeline.get_packed_pipeline(), expected);
}

#[test]
fn batch_is_what_the_pipeline_calls_build() {
    let command = StoreCommand::Atomic {
        writes: vec![
            StoreWrite::HashPut { key: text("app:7"), field: text("token"), value: text("7:x") },
            StoreWrite::HashPut { key: text("app:7"), field: text("id"), value: text("42") },
            StoreWrite::Increment { key: text("user:id") },
            StoreWrite::SetAdd { key: text("user:42"), member: text("app:7") },
        ],
    };
    let mut by_hand = redis::pipe();
    by_hand
        .atomic()
        .hset("app:7", "token", "7:x")
        .ignore()
        .hset("app:7", "id", 42u64)
        .ignore()
        .cmd("INCR")
        .arg("user:id")
        .ignore()
        .sadd("user:42", "app:7")
        .ignore();
    assert_eq!(pipeline_of(&command).get_packed_pipeline(), by_hand.get_packed_pipeline());
}

#[test]
fn empty_batch_and_other_texts() {
    let pipeline = pipeline_of(&StoreCommand::Atomic { writes: vec![] });
    assert!(words(&pipeline).is_empty());
    let mut expected = packed(&["MULTI"]);
    expected.extend(packed(&["EXEC"]));
    assert_eq!(pipeline.get_packed_pipeline(), expected);
    let pipeline = pipeline_of(&StoreCommand::Get { key: text("clé √") });
    assert_eq!(words(&pipeline), vec![vec![text("GET"), text("clé √")]]);
    assert_eq!(pipeline.get_packed_pipeline(), packed(&["GET", "clé √"]));
}
