use ease_music::lyric_parser::{lyric_at, parse_row, parse_rows, parse_time, LyricRow};
use ease_music::text::{chars_of, decimal_string, parse_i32, slice_of, string_of_range};
use regex::Regex;

const SONG: &str = "
        [00:00.000] 作词 : 黄伟文\n[00:01.000] 作曲 : 雷颂德/Ted Lo\n[00:08.41]\n[00:11.70]就算只谈一场感情\n[00:15.70]除外都是一时虚荣\n[00:19.54]不等于在蜜月套房游玩过\n[00:23.77]就可自入自出仙境\n[00:27.75]情愿获得你的尊敬\n[00:31.63]承受太高傲的罪名\n[00:35.53]挤得进你臂弯 如情怀渐冷\n[00:39.59]未算孤苦也伶仃\n[00:42.76]明知爱\n[00:44.27]这种男孩子\n[00:45.98]也许只能如此\n[00:48.15]但我会成为你\n[00:49.27]最牵挂的一个女子\n[00:52.14]朝朝暮暮让你\n[00:53.71]猜想如何驯服我\n[00:55.88]若果亲手抱住\n[00:57.93]或者不必如此\n[01:00.21]许多旁人说我\n[01:01.74]不太明了男孩子\n[01:04.22]不受命令就是\n[01:05.52]一种最坏名字\n[01:08.24]笑我这个毫无办法\n[01:10.25]管束的野孩子\n[01:13.67]连没有幸福都不介意\n[01:27.76]若我依然坚持忠诚\n[01:31.58]难道你又适合安定\n[01:35.74]真可惜\n[01:36.64]说要吻我的还未吻\n[01:39.84]自己就自梦中苏醒\n[01:43.77]离场是否有点失敬\n[01:47.81]还是更轰烈的剧情\n[01:51.55]必需有这结果\n[01:53.76]才能怀念我\n[01:55.41]让我于荒野驰骋\n[01:58.74]明知爱\n[01:59.68]这种男孩子\n[02:01.93]也许只能如此\n[02:04.07]但我会成为\n[02:05.16]你最牵挂的一个女子\n[02:08.17]朝朝暮暮\n[02:09.22]让你猜想如何驯服我\n[02:11.99]若果亲手抱住\n[02:13.88]或者不必如此\n[02:16.21]许多旁人\n[02:17.25]说我不太明了男孩子\n[02:20.15]不受命令\n[02:21.29]就是一种最坏名字\n[02:24.16]笑我这个毫无办法\n[02:26.25]管束的野孩子\n[02:29.66]连没有幸福都不介意\n[02:46.75]明知爱\n[02:47.88]这种男孩子\n[02:49.92]也许只能如此\n[02:52.00]但我会成为\n[02:53.27]你最牵挂的一个女子\n[02:56.16]朝朝暮暮\n[02:57.24]让你猜想如何驯服我\n[03:00.00]若果亲手抱住\n[03:01.95]或者不必如此\n[03:04.16]许多旁人\n[03:05.12]说我不太明了男孩子\n[03:08.13]不受命令\n[03:09.10]就是一种最坏名字\n[03:12.14]我也笑我原来\n[03:13.62]是个天生的野孩子\n[03:17.81]连没有幸福都不介意\n
        ";

fn pairs(rows: &Vec<LyricRow>) -> Vec<(i32, String)> {
    rows.iter().map(|r| (r.start, r.content.clone())).collect()
}

fn by_pattern(text: &str) -> Vec<(i32, String)> {
    let re = Regex::new(r"\[(\d{2}):(\d{2})\.(\d+)\](.*)").unwrap();
    let mut out = vec![];
    for line in text.lines() {
        if let Some(c) = re.captures(line) {
            let m: i32 = c.get(1).unwrap().as_str().parse().unwrap();
            let s: i32 = c.get(2).unwrap().as_str().parse().unwrap();
            out.push(((m * 60 + s) * 1000, c.get(4).unwrap().as_str().to_string()));
        }
    }
    out
}

#[test]
fn it_works() {
    let lyric_str = SONG;
    let rows = parse_rows(lyric_str);
    assert_eq!(rows.len(), 69);
}

#[test]
fn song_rows_hold_times_and_texts() {
    let rows = parse_rows(SONG);
    assert_eq!(rows[0].start, 0);
    assert_eq!(rows[0].content, " 作词 : 黄伟文");
    assert_eq!(rows[2].start, 8_000);
    assert_eq!(rows[2].content, "");
    assert_eq!(rows[3].start, 11_000);
    assert_eq!(rows[3].content, "就算只谈一场感情");
    assert_eq!(rows[68].start, 197_000);
    assert_eq!(rows[68].content, "连没有幸福都不介意");
}

#[test]
fn parse_two_rows_and_skip_garbage() {
    let rows = parse_rows("[00:11.70]line A\ngarbage\n[01:03.41]line B");
    assert_eq!(
        pairs(&rows),
        vec![(11_000, "line A".to_string()), (63_000, "line B".to_string())]
    );
}

#[test]
fn query_follows_the_position() {
    let rows = parse_rows("[00:11.70]line A\ngarbage\n[01:03.41]line B");
    assert_eq!(lyric_at(&rows, 10_000), "line A");
    assert_eq!(lyric_at(&rows, 11_000), "line A");
    assert_eq!(lyric_at(&rows, 62_999), "line A");
    assert_eq!(lyric_at(&rows, 63_000), "line B");
    assert_eq!(lyric_at(&rows, i32::MAX), "line B");
    assert_eq!(lyric_at(&rows, i32::MIN), "line A");
}

#[test]
fn query_without_rows_gives_the_notice() {
    let rows: Vec<LyricRow> = vec![];
    assert_eq!(lyric_at(&rows, 0), "no lyric");
    assert_eq!(lyric_at(&parse_rows(""), 5_000), "no lyric");
    assert_eq!(lyric_at(&parse_rows("no stamp here\n"), 5_000), "no lyric");
}

#[test]
fn query_takes_the_last_started_row_of_an_unsorted_timeline() {
    let rows = vec![
        LyricRow::new(5_000, "a".to_string()),
        LyricRow::new(1_000, "b".to_string()),
        LyricRow::new(9_000, "c".to_string()),
    ];
    assert_eq!(lyric_at(&rows, 0), "a");
    assert_eq!(lyric_at(&rows, 1_000), "b");
    assert_eq!(lyric_at(&rows, 5_000), "b");
    assert_eq!(lyric_at(&rows, 9_000), "c");
}

#[test]
fn rows_are_neither_sorted_nor_merged() {
    let rows = parse_rows("[01:00.0]late\n[00:01.0]early\n[00:01.9]again");
    assert_eq!(
        pairs(&rows),
        vec![
            (60_000, "late".to_string()),
            (1_000, "early".to_string()),
            (1_000, "again".to_string())
        ]
    );
}

#[test]
fn row_new_keeps_its_arguments() {
    let row = LyricRow::new(42, "x".to_string());
    assert_eq!(row.start, 42);
    assert_eq!(row.content, "x");
}

#[test]
fn stamp_shapes() {
    assert!(parse_row("[00:11.70]x").is_some());
    assert!(parse_row("[00:11.7]x").is_some());
    assert!(parse_row("[00:11.700000]x").is_some());
    assert!(parse_row("[00:11.]x").is_none());
    assert!(parse_row("[00:11]x").is_none());
    assert!(parse_row("[0:11.70]x").is_none());
    assert!(parse_row("[000:11.70]x").is_none());
    assert!(parse_row("[00:1.70]x").is_none());
    assert!(parse_row("[00:11.70x").is_none());
    assert!(parse_row("[00:11.7a]x").is_none());
    assert!(parse_row("00:11.70]x").is_none());
    assert!(parse_row("[00-11.70]x").is_none());
    assert!(parse_row("").is_none());
    assert!(parse_row("[").is_none());
    assert!(parse_row("[00:11.7").is_none());
}

#[test]
fn leftmost_stamp_counts() {
    let row = parse_row("  intro [00:0x.1] [01:02.3][04:05.6]tail").unwrap();
    assert_eq!(row.start, 62_000);
    assert_eq!(row.content, "[04:05.6]tail");
    let row = parse_row("[[00:59.9]]").unwrap();
    assert_eq!(row.start, 59_000);
    assert_eq!(row.content, "]");
}

#[test]
fn seconds_above_fifty_nine_are_counted_as_written() {
    let row = parse_row("[99:99.0]end").unwrap();
    assert_eq!(row.start, (99 * 60 + 99) * 1000);
    assert_eq!(row.start, 6_039_000);
}

#[test]
fn row_text_of_one_line_ends_at_a_line_feed() {
    let row = parse_row("[00:01.0]one\ntwo").unwrap();
    assert_eq!(row.content, "one");
}

#[test]
fn line_endings() {
    let rows = parse_rows("[00:01.0]a\r\n[00:02.0]b\n\n[00:03.0]c\r");
    assert_eq!(
        pairs(&rows),
        vec![
            (1_000, "a".to_string()),
            (2_000, "b".to_string()),
            (3_000, "c\r".to_string())
        ]
    );
    let rows = parse_rows("[00:01.0]a\r\r\n");
    assert_eq!(pairs(&rows), vec![(1_000, "a\r".to_string())]);
    assert_eq!(parse_rows("\n\n\n").len(), 0);
    assert_eq!(parse_rows("[00:01.0]").len(), 1);
    assert_eq!(parse_rows("[00:01.0]\n").len(), 1);
}

#[test]
fn parser_agrees_with_the_pattern() {
    let texts = [
        SONG,
        "[00:11.70]line A\ngarbage\n[01:03.41]line B",
        "[00:01.0]a\r\n[00:02.0]b\n\n[00:03.0]c\r",
        "x[12:34.5]y[00:00.0]z\n[1:2.3]\n[12:34.]\n[12:34.5\n[[12:34.567]]\n",
        "[99:99.9999]\n[00:00.0][00:00.1]\n  [10:20.30]  spaced  \n",
        "",
        "\n",
        "no stamps at all",
    ];
    for text in texts {
        assert_eq!(pairs(&parse_rows(text)), by_pattern(text));
    }
}

#[test]
fn writing_rows_out_and_reading_them_again_gives_the_same_timeline() {
    let first = parse_rows("[00:11.70]line A\ngarbage\n[01:03.41]line B\n[59:59.9]\n[12:00.5] [x]");
    let mut text = String::new();
    for row in &first {
        let seconds = row.start / 1000;
        text.push_str(&format!("[{:02}:{:02}.000]{}\n", seconds / 60, seconds % 60, row.content));
    }
    assert_eq!(
        text,
        "[00:11.000]line A\n[01:03.000]line B\n[59:59.000]\n[12:00.000] [x]\n"
    );
    let second = parse_rows(&text);
    assert_eq!(pairs(&first), pairs(&second));
}

#[test]
fn parse_time_gives_milliseconds() {
    assert_eq!(parse_time("00", "11"), Some(11_000));
    assert_eq!(parse_time("01", "03"), Some(63_000));
    assert_eq!(parse_time("-1", "+30"), Some(-30_000));
    assert_eq!(parse_time("", "11"), None);
    assert_eq!(parse_time("1a", "11"), None);
    assert_eq!(parse_time("00", " 1"), None);
    assert_eq!(parse_time("35791", "0"), Some(2_147_460_000));
    assert_eq!(parse_time("35791", "24"), None);
    assert_eq!(parse_time("2147483647", "0"), None);
}

#[test]
fn parse_i32_reads_decimal() {
    assert_eq!(parse_i32("0"), Some(0));
    assert_eq!(parse_i32("007"), Some(7));
    assert_eq!(parse_i32("+12"), Some(12));
    assert_eq!(parse_i32("-12"), Some(-12));
    assert_eq!(parse_i32("2147483647"), Some(i32::MAX));
    assert_eq!(parse_i32("2147483648"), None);
    assert_eq!(parse_i32("-2147483648"), Some(i32::MIN));
    assert_eq!(parse_i32("-2147483649"), None);
    assert_eq!(parse_i32("99999999999999999999999999"), None);
    assert_eq!(parse_i32(""), None);
    assert_eq!(parse_i32("+"), None);
    assert_eq!(parse_i32("-"), None);
    assert_eq!(parse_i32("1_0"), None);
    assert_eq!(parse_i32(" 1"), None);
    assert_eq!(parse_i32("1 "), None);
    assert_eq!(parse_i32("--1"), None);
    assert_eq!(parse_i32("١٢"), None);
    for text in ["0", "-0", "+0", "12", "-2147483648", "2147483648", "x", "", "+-1", "00000000000001"] {
        assert_eq!(parse_i32(text), text.parse::<i32>().ok());
    }
}

#[test]
fn characters_and_strings() {
    let v = chars_of("a好b");
    assert_eq!(v, vec!['a', '好', 'b']);
    assert_eq!(string_of_range(&v, 1, 3), "好b");
    assert_eq!(string_of_range(&v, 2, 2), "");
    assert_eq!(slice_of(&v, 0, 2), vec!['a', '好']);
    assert_eq!(decimal_string(0), "0");
    assert_eq!(decimal_string(-45), "-45");
    assert_eq!(decimal_string(i64::MAX), "9223372036854775807");
    assert_eq!(decimal_string(i64::MIN), "-9223372036854775808");
}
