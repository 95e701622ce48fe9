use ehparse::structures::{GalleryComment, GalleryCommentList};
use ehparse::parser::gallery_detail_parser::pair_comments;

#[test]
fn parse_comment_test() {
    // uploader.
    let ele = r#"
        <a name="c0"></a>
        <div class="c1">
            <div class="c2">
                <div class="c3">Posted on 02 July 2019, 11:50 by: &nbsp; <a
                        href="https:///e-hentai.org/uploader/qq3870990">qq3870990</a>&nbsp; &nbsp; <a
                        href="https:///forums.e-hentai.org/index.php?showuser=1725168"><img class="ygm"
                            src="https:///ehgt.org/g/ygm.png" alt="PM" title="Contact Poster"></a></div>
                <div class="c4 nosel"><a name="ulcomment"></a>Uploader Comment</div>
                <div class="c"></div>
            </div>
            <div class="c6" id="comment_0">
                =========================================================<br>RAW：<a
                    href="https:///e-hentai.org/g/1378957/7f626bf1d2/">https:///e-hentai.org/g/1378957/7f626bf1d2/</a></div>
            <div class="c7" id="cvotes_0" style="display:none"></div>
        </div>
    "#;
    assert_eq!(GalleryComment::parse(ele).is_ok(), true);

    // others.
    let ele = r##"
        <a name="c3922745"></a>
        <div class="c1">
            <div class="c2">
                <div class="c3">Posted on 24 September 2020, 09:55 by: &nbsp; <a
                        href="https://e-hentai.org/uploader/Kalinkawow">Kalinkawow</a>&nbsp; &nbsp; <a
                        href="https://forums.e-hentai.org/index.php?showuser=4997064"><img class="ygm"
                            src="https://ehgt.org/g/ygm.png" alt="PM" title="Contact Poster"></a></div>
                <div class="c4 nosel">[<a id="comment_vote_up_3922745" style="" href="#"
                        onclick="vote_comment_up(3922745); this.blur(); return false">Vote+</a>] &nbsp; [<a
                        id="comment_vote_down_3922745" style="" href="#"
                        onclick="vote_comment_down(3922745); this.blur(); return false">Vote-</a>]</div>
                <div class="c5 nosel" onmouseover="sument.getElementById('cvotes_3922745').style.display=''"
                    onclick="this.onmouseover(); this.onmouseout=undefined"
                    onmouseout="sument.getElementById('cvotes_3922745').style.display='none'">Score <span
                        id="comment_score_3922745" style="opacity:1.0">+257</span></div>
                <div class="c"></div>
            </div>
            <div class="c6" id="comment_3922745">content of the comment</div>
            <div class="c7" id="cvotes_3922745" style="display:none">Base +3, <span>q171718988 +3</span>, <span>Igarashi
                    Shioya +6</span>, <span>suhaotian +6</span>, and 38 more...</div>
        </div>
    "##;
    assert_eq!(GalleryComment::parse(ele).is_ok(), true);
}

#[test]
fn comment_fields_decode() {
    let ele = r##"
        <a name="c3922745"></a>
        <div class="c1">
            <div class="c2">
                <div class="c3">Posted on 24 September 2020, 09:55 by: &nbsp; <a
                        href="https://e-hentai.org/uploader/Kalinkawow">Kalinkawow</a></div>
                <div class="c4 nosel">[<a id="comment_vote_up_3922745" style="" href="#">Vote+</a>] &nbsp; [<a
                        id="comment_vote_down_3922745" style="opacity:1.0" href="#">Vote-</a>]</div>
                <div class="c5 nosel">Score <span id="comment_score_3922745" style="opacity:1.0">+257</span></div>
                <div class="c"></div>
            </div>
            <div class="c6" id="comment_3922745">content of the comment</div>
            <div class="c7" id="cvotes_3922745" style="display:none">Base +3</div>
        </div>
    "##;
    let c = GalleryComment::parse(ele).unwrap();
    assert_eq!(c.id, 3922745);
    assert_eq!(c.is_uploader, false);
    assert_eq!(c.posted_timestamp, 1600941300);
    assert_eq!(c.user, "Kalinkawow");
    assert_eq!(c.score_opt, Some(257));
    assert_eq!(c.vote_up_able, true);
    assert_eq!(c.vote_up_ed, false);
    assert_eq!(c.vote_down_able, true);
    assert_eq!(c.vote_down_ed, true);
    assert_eq!(c.editable, false);
    assert_eq!(c.vote_state_opt, Some(String::from("Base +3")));
}

#[test]
fn parse_comment_list_test() {
    let ele = r##"
        <div id="cdiv" class="gm">
            <a name="c0"></a>
            <div class="c1">
                <div class="c2">
                    <div class="c3">Posted on 23 September 2020, 14:04 by: &nbsp; <a
                            href="https://e-hentai.org/uploader/qq3870990">qq3870990</a>&nbsp; &nbsp; <a
                            href="https://forums.e-hentai.org/index.php?showuser=1725168"><img class="ygm"
                                src="https://ehgt.org/g/ygm.png" alt="PM" title="Contact Poster"></a></div>
                    <div class="c4 nosel"><a name="ulcomment"></a>Uploader Comment</div>
                    <div class="c"></div>
                </div>
                <div class="c6" id="comment_0">RAW：<a
                        href="https://e-hentai.org/g/1511310/8e568fd1b0/">https://e-hentai.org/g/1511310/8e568fd1b0/</a></div>
                <div class="c7" id="cvotes_0" style="display:none"></div>
            </div>

            <a name="c3922745"></a>
            <div class="c1">
                <div class="c2">
                    <div class="c3">Posted on 24 September 2020, 09:55 by: &nbsp; <a
                            href="https://e-hentai.org/uploader/Kalinkawow">Kalinkawow</a>&nbsp; &nbsp; <a
                            href="https://forums.e-hentai.org/index.php?showuser=4997064"><img class="ygm"
                                src="https://ehgt.org/g/ygm.png" alt="PM" title="Contact Poster"></a></div>
                    <div class="c4 nosel">[<a id="comment_vote_up_3922745" style="" href="#"
                            onclick="vote_comment_up(3922745); this.blur(); return false">Vote+</a>] &nbsp; [<a
                            id="comment_vote_down_3922745" style="" href="#"
                            onclick="vote_comment_down(3922745); this.blur(); return false">Vote-</a>]</div>
                    <div class="c5 nosel" onmouseover="sument.getElementById('cvotes_3922745').style.display=''"
                        onclick="this.onmouseover(); this.onmouseout=undefined"
                        onmouseout="sument.getElementById('cvotes_3922745').style.display='none'">Score <span
                            id="comment_score_3922745" style="opacity:1.0">+257</span></div>
                    <div class="c"></div>
                </div>
                <div class="c6" id="comment_3922745">second comment body</div>
                <div class="c7" id="cvotes_3922745" style="display:none">Base +3, <span>q171718988 +3</span>, and 38 more...</div>
            </div>
            <div id="chd">
                <p>There is 1 more comment below the viewing threshold - <a
                        href="https://e-hentai.org/g/1740161/b90e67b628/?hc=1#comments" rel="nofollow">click to show all</a>.
                </p>
                <p id="postnewcomment">[<a href="#"
                        onclick="display_comment_field(); sument.getElementById('postnewcomment').style.display='none'; return false">Post
                        New Comment</a>]</p>
            </div>
            <a name="cnew"></a>
            <div id="formdiv" style="display:none">
                <form method="post" action="#cnew">
                    <textarea name="commenttext_new"
                        placeholder="Enter your comments here, then hit Post Comment."></textarea>
                    <p><input type="submit" value="Post Comment"></p>
                </form>
            </div>
        </div>
    "##;

    let list = GalleryCommentList::parse(ele);
    assert_eq!(list.is_ok(), true);
    let list = list.unwrap();
    assert_eq!(list.comment_vec.len(), 2);
    assert_eq!(list.comment_vec[0].id, 0);
    assert_eq!(list.comment_vec[0].is_uploader, true);
    assert_eq!(list.comment_vec[1].id, 3922745);
    assert_eq!(list.has_more, true);
}

// The pairing is positional and order-preserving: the third marker goes
// with the third block, whatever ids the markers carry.
#[test]
fn comment_pairing_preserves_document_order() {
    let ids: [u64; 3] = [900, 5, 77];
    let mut markers: Vec<String> = Vec::new();
    let mut blocks: Vec<String> = Vec::new();
    for id in ids.iter() {
        markers.push(format!(r##"<a name="c{}"></a>"##, id));
        blocks.push(format!(
            r##"<div class="c1"><div class="c2"><div class="c3">Posted on 02 July 2019, 11:50 by: <a href="https://e-hentai.org/uploader/u{}">u{}</a></div><div class="c4 nosel"><a name="ulcomment"></a>Uploader Comment</div></div><div class="c6">body {}</div></div>"##,
            id, id, id
        ));
    }
    let paired = pair_comments(&markers, &blocks).unwrap();
    assert_eq!(paired.len(), 3);
    assert_eq!(paired[0].id, 900);
    assert_eq!(paired[1].id, 5);
    assert_eq!(paired[2].id, 77);
    assert_eq!(paired[2].user, "u77");
}

// The decoder overwrites the already-voted flag per anchor, so the last
// styled Vote anchor decides it.
#[test]
fn last_vote_anchor_decides_already_voted() {
    let ele = r##"
        <a name="c8"></a>
        <div class="c1">
            <div class="c2">
                <div class="c3">Posted on 24 September 2020, 09:55 by: <a href="https://e-hentai.org/uploader/u">u</a></div>
                <div class="c4 nosel">[<a id="a1" style="opacity:1.0" href="#">Vote+</a>] [<a
                        id="a2" style="" href="#">Vote+</a>] [<a id="a3" style="" href="#">Vote-</a>]</div>
                <div class="c5 nosel">Score <span id="comment_score_8" style="opacity:1.0">+1</span></div>
            </div>
            <div class="c6" id="comment_8">body</div>
            <div class="c7" id="cvotes_8"></div>
        </div>
    "##;
    let c = ehparse::structures::GalleryComment::parse(ele).unwrap();
    assert_eq!(c.vote_up_able, true);
    // The second Vote+ anchor, with its empty style, overwrites the first.
    assert_eq!(c.vote_up_ed, false);
    assert_eq!(c.vote_down_able, true);
    assert_eq!(c.vote_down_ed, false);
}
