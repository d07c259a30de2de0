use llmweb::text::normalize;

#[test]
fn test_strip_markdown_backticks() {
    // No backticks
    let s1 = "hello";
    assert_eq!(normalize(s1), "hello");

    // Simple fenced code block
    let s2 = "```json\n{\"a\":1}\n```";
    assert_eq!(normalize(s2), "{\"a\":1}");

    // Fenced code block with language
    let s3 = "```rust\nlet x = 1;\n```";
    assert_eq!(normalize(s3), "let x = 1;");

    // Leading/trailing whitespace
    let s4 = "   ```json\n{\"b\":2}\n```   ";
    assert_eq!(normalize(s4), "{\"b\":2}");

    // Only backticks
    let s5 = "```";
    assert_eq!(normalize(s5), "");

    // No code block, just text with backticks inside
    let s6 = "some `inline` code";
    assert_eq!(normalize(s6), "some `inline` code");
}

#[test]
fn test_strip_markdown_backticks_large_json() {
    let json_str = r###"
```json
{
  "top": [
    {
      "title": "Ask HN: Any resources for finding non-smart appliances?",
      "points": 65,
      "by": "everyone",
      "comments_url": "item?id=44488810"
    },
    {
      "title": "What every programmer should know about how CPUs work [video]",
      "points": 76,
      "by": "bschne",
      "comments_url": "item?id=44458896"
    },
    {
      "title": "Bitchat - A decentralized messaging app that works over Bluetooth mesh networks",
      "points": 0,
      "by": null,
      "comments_url": null
    }
  ]
}
```
"###;

    let expected = r#"{
  "top": [
    {
      "title": "Ask HN: Any resources for finding non-smart appliances?",
      "points": 65,
      "by": "everyone",
      "comments_url": "item?id=44488810"
    },
    {
      "title": "What every programmer should know about how CPUs work [video]",
      "points": 76,
      "by": "bschne",
      "comments_url": "item?id=44458896"
    },
    {
      "title": "Bitchat - A decentralized messaging app that works over Bluetooth mesh networks",
      "points": 0,
      "by": null,
      "comments_url": null
    }
  ]
}"#;

    assert_eq!(normalize(json_str), expected);
}

#[test]
fn normalize_trims_whitespace_only() {
    assert_eq!(normalize("  hello  "), "hello");
    assert_eq!(normalize("\n\t hello world \r\n"), "hello world");
    assert_eq!(normalize(""), "");
    assert_eq!(normalize("   \n\t  "), "");
}

#[test]
fn normalize_leaves_partial_fences_alone() {
    // A leading fence with no matching trailing fence is not stripped.
    assert_eq!(normalize("```json\n{\"a\":1}"), "```json\n{\"a\":1}");
    // A trailing fence with no matching leading fence is not stripped either.
    assert_eq!(normalize("{\"a\":1}\n```"), "{\"a\":1}\n```");
    // Backticks in the middle do not make a wrapping pair.
    assert_eq!(normalize("a ``` b ``` c"), "a ``` b ``` c");
}

#[test]
fn normalize_is_idempotent_on_typical_inputs() {
    let samples = [
        "hello",
        "```json\n{\"a\":1}\n```",
        "```rust\nlet x = 1;\n```",
        "   ```json\n{\"b\":2}\n```   ",
        "```",
        "some `inline` code",
        "```json\n{\"a\":1}",
        "{\"a\":1}\n```",
        "",
        "   \n  ",
        "``````",
        "````",
    ];
    for s in samples {
        let once = normalize(s);
        let twice = normalize(&once);
        assert_eq!(twice, once);
    }
}

#[test]
fn normalize_strips_one_fence_pair_only() {
    // One pass removes exactly one wrapping pair; fence markers that the
    // content itself carries survive the strip.
    assert_eq!(normalize("```x\n``` ```"), "```");
    assert_eq!(normalize("```json\n```inner```\n```"), "```inner```");
}

#[test]
fn normalize_handles_fence_edge_shapes() {
    // Language tag without content.
    assert_eq!(normalize("```json\n```"), "");
    // No language tag, no newline.
    assert_eq!(normalize("```abc```"), "");
    // Four backticks: not a whole wrapping pair around content.
    assert_eq!(normalize("````"), "`");
}
