//! What a pet says: the speech labels of its actions and of the situations
//! it reacts to, and the choice of one of them.

use vstd::prelude::*;
use vstd::string::*;
use rand::seq::SliceRandom;
use crate::text::same_text;

verus! {

/// The characters of each text of a list.
pub open spec fn texts_of(items: Seq<&str>) -> Seq<Seq<char>> {
    items.map_values(|t: &str| t@)
}

/// Picks one text of `items` at random (uniformly), or none when `items` is empty.
///
/// Calls `rand::seq::SliceRandom::choose` with the thread-local generator. The
/// contract claims only that a text is picked exactly when there is one, and
/// that it is one of `items`; which one is left to chance.
#[verifier::external_body]
fn choose_text(items: &[&'static str]) -> (r: Option<&'static str>)
    ensures
        r is None <==> items@.len() == 0,
        (r matches Some(t) ==> exists|i: int| 0 <= i < items@.len() && items@[i] == t),
{
    items.choose(&mut rand::thread_rng()).copied()
}

/// The speech labels of an action, for GEMMI-Chan or for GP-Chan; none for an
/// unknown action.
pub open spec fn action_labels_spec(action: Seq<char>, is_gemmi: bool) -> Seq<Seq<char>> {
    if action == "idle"@ {
        if is_gemmi { seq!["나 불렀어?"@, "심심해"@, "놀아줘"@] } else { seq!["멍..."@, "생각중"@, "대기중"@] }
    } else if action == "wave"@ {
        if is_gemmi { seq!["야호!"@, "여기야!"@, "봤지?"@] } else { seq!["ㅎㅇ"@, "하이"@, "왔는가"@] }
    } else if action == "think"@ {
        if is_gemmi { seq!["내가 맞음"@, "흠냐"@, "천재모드"@] } else { seq!["흠..."@, "계산중"@, "그럴수도"@] }
    } else if action == "typing"@ {
        if is_gemmi { seq!["숙제중!"@, "타닥타닥"@, "답안작성"@] } else { seq!["토큰입력중"@, "타닥타닥"@, "작성중"@] }
    } else if action == "cheer"@ {
        if is_gemmi { seq!["상장감!"@, "칭찬해줘"@, "내가 일등"@] } else { seq!["힘내 휴먼"@, "할수있다"@, "가보자"@] }
    } else if action == "sit"@ {
        if is_gemmi { seq!["삐짐"@, "쉬는중"@, "책상점령"@] } else { seq!["절전중"@, "쉬는중"@, "잠깐휴식"@] }
    } else if action == "sleep"@ {
        if is_gemmi { seq!["졸려..."@, "5분만"@, "수업끝?"@] } else { seq!["Zzz.."@, "수면중"@, "충전중"@] }
    } else if action == "pout"@ {
        if is_gemmi { seq!["아니거든!"@, "흥!"@, "내가 맞아"@] } else { seq!["억까임"@, "흥..."@, "이건 억까"@] }
    } else if action == "surprise"@ {
        if is_gemmi { seq!["으악!"@, "뭐야!"@, "깜짝이야"@] } else { seq!["어라?"@, "헉"@, "뭐임?"@] }
    } else if action == "sweep"@ {
        if is_gemmi { seq!["청소싫어!"@, "대충싹싹"@, "내가왜?"@] } else { seq!["청소각"@, "싹싹"@, "정리중"@] }
    } else if action == "walk"@ {
        if is_gemmi { seq!["돌격!"@, "우다다"@, "순찰놀이"@] } else { seq!["순찰중"@, "어슬렁"@, "이동중"@] }
    } else if action == "half_right"@ {
        if is_gemmi { seq!["반만 맞음"@] } else { seq!["반만 맞습니다"@, "절반만 인정"@, "애매하네요"@] }
    } else if action == "welcome_agi"@ {
        if is_gemmi { seq!["AGI 조아"@] } else { seq!["AGI 가즈아"@, "AGI 즈라"@, "특이점각"@] }
    } else if action == "agi_box"@ {
        if is_gemmi { seq!["상자행"@] } else { seq!["박스행"@, "망했음"@, "AGI ㅠㅠ"@] }
    } else if action == "drag_dangle"@ {
        if is_gemmi { seq!["놔줘!"@, "매달림!"@, "으아아"@] } else { seq!["놔라 휴먼"@, "살려줘"@, "대롱대롱"@] }
    } else if action == "scroll_tickle"@ {
        if is_gemmi { seq!["꺄르륵"@, "간지러!"@, "하지마ㅋㅋ"@] } else { seq!["아ㅋㅋ"@, "간지러"@, "그만ㅋㅋ"@] }
    } else if action == "bonk"@ {
        if is_gemmi { seq!["아야!"@, "딱콩!"@, "복수할거야"@] } else { seq!["아야"@, "딱콩!"@, "너무해"@] }
    } else {
        Seq::empty()
    }
}

/// The speech labels of every known action, for GEMMI-Chan (`true`) and for
/// GP-Chan (`false`); any other action has none.
pub proof fn lemma_action_label_table(action: Seq<char>)
    ensures
        action_labels_spec("idle"@, true) == seq!["나 불렀어?"@, "심심해"@, "놀아줘"@],
        action_labels_spec("idle"@, false) == seq!["멍..."@, "생각중"@, "대기중"@],
        action_labels_spec("wave"@, true) == seq!["야호!"@, "여기야!"@, "봤지?"@],
        action_labels_spec("wave"@, false) == seq!["ㅎㅇ"@, "하이"@, "왔는가"@],
        action_labels_spec("think"@, true) == seq!["내가 맞음"@, "흠냐"@, "천재모드"@],
        action_labels_spec("think"@, false) == seq!["흠..."@, "계산중"@, "그럴수도"@],
        action_labels_spec("typing"@, true) == seq!["숙제중!"@, "타닥타닥"@, "답안작성"@],
        action_labels_spec("typing"@, false) == seq!["토큰입력중"@, "타닥타닥"@, "작성중"@],
        action_labels_spec("cheer"@, true) == seq!["상장감!"@, "칭찬해줘"@, "내가 일등"@],
        action_labels_spec("cheer"@, false) == seq!["힘내 휴먼"@, "할수있다"@, "가보자"@],
        action_labels_spec("sit"@, true) == seq!["삐짐"@, "쉬는중"@, "책상점령"@],
        action_labels_spec("sit"@, false) == seq!["절전중"@, "쉬는중"@, "잠깐휴식"@],
        action_labels_spec("sleep"@, true) == seq!["졸려..."@, "5분만"@, "수업끝?"@],
        action_labels_spec("sleep"@, false) == seq!["Zzz.."@, "수면중"@, "충전중"@],
        action_labels_spec("pout"@, true) == seq!["아니거든!"@, "흥!"@, "내가 맞아"@],
        action_labels_spec("pout"@, false) == seq!["억까임"@, "흥..."@, "이건 억까"@],
        action_labels_spec("surprise"@, true) == seq!["으악!"@, "뭐야!"@, "깜짝이야"@],
        action_labels_spec("surprise"@, false) == seq!["어라?"@, "헉"@, "뭐임?"@],
        action_labels_spec("sweep"@, true) == seq!["청소싫어!"@, "대충싹싹"@, "내가왜?"@],
        action_labels_spec("sweep"@, false) == seq!["청소각"@, "싹싹"@, "정리중"@],
        action_labels_spec("walk"@, true) == seq!["돌격!"@, "우다다"@, "순찰놀이"@],
        action_labels_spec("walk"@, false) == seq!["순찰중"@, "어슬렁"@, "이동중"@],
        action_labels_spec("half_right"@, true) == seq!["반만 맞음"@],
        action_labels_spec("half_right"@, false) == seq!["반만 맞습니다"@, "절반만 인정"@, "애매하네요"@],
        action_labels_spec("welcome_agi"@, true) == seq!["AGI 조아"@],
        action_labels_spec("welcome_agi"@, false) == seq!["AGI 가즈아"@, "AGI 즈라"@, "특이점각"@],
        action_labels_spec("agi_box"@, true) == seq!["상자행"@],
        action_labels_spec("agi_box"@, false) == seq!["박스행"@, "망했음"@, "AGI ㅠㅠ"@],
        action_labels_spec("drag_dangle"@, true) == seq!["놔줘!"@, "매달림!"@, "으아아"@],
        action_labels_spec("drag_dangle"@, false) == seq!["놔라 휴먼"@, "살려줘"@, "대롱대롱"@],
        action_labels_spec("scroll_tickle"@, true) == seq!["꺄르륵"@, "간지러!"@, "하지마ㅋㅋ"@],
        action_labels_spec("scroll_tickle"@, false) == seq!["아ㅋㅋ"@, "간지러"@, "그만ㅋㅋ"@],
        action_labels_spec("bonk"@, true) == seq!["아야!"@, "딱콩!"@, "복수할거야"@],
        action_labels_spec("bonk"@, false) == seq!["아야"@, "딱콩!"@, "너무해"@],
        (action != "idle"@ && action != "wave"@ && action != "think"@ && action != "typing"@ && action != "cheer"@ && action != "sit"@ && action != "sleep"@ && action != "pout"@ && action != "surprise"@ && action != "sweep"@ && action != "walk"@ && action != "half_right"@ && action != "welcome_agi"@ && action != "agi_box"@ && action != "drag_dangle"@ && action != "scroll_tickle"@ && action != "bonk"@) ==> action_labels_spec(action, true) == Seq::<Seq<char>>::empty() && action_labels_spec(action, false) == Seq::<Seq<char>>::empty(),
{
    reveal_strlit("idle");
    reveal_strlit("wave");
    reveal_strlit("think");
    reveal_strlit("typing");
    reveal_strlit("cheer");
    reveal_strlit("sit");
    reveal_strlit("sleep");
    reveal_strlit("pout");
    reveal_strlit("surprise");
    reveal_strlit("sweep");
    reveal_strlit("walk");
    reveal_strlit("half_right");
    reveal_strlit("welcome_agi");
    reveal_strlit("agi_box");
    reveal_strlit("drag_dangle");
    reveal_strlit("scroll_tickle");
    reveal_strlit("bonk");
    // Each name by its length and first characters, which tell them apart.
    assert("idle"@.len() == 4 && "idle"@[0] == 'i' && "idle"@[1] == 'd');
    assert("wave"@.len() == 4 && "wave"@[0] == 'w' && "wave"@[1] == 'a');
    assert("think"@.len() == 5 && "think"@[0] == 't' && "think"@[1] == 'h');
    assert("typing"@.len() == 6 && "typing"@[0] == 't' && "typing"@[1] == 'y');
    assert("cheer"@.len() == 5 && "cheer"@[0] == 'c' && "cheer"@[1] == 'h');
    assert("sit"@.len() == 3 && "sit"@[0] == 's' && "sit"@[1] == 'i');
    assert("sleep"@.len() == 5 && "sleep"@[0] == 's' && "sleep"@[1] == 'l');
    assert("pout"@.len() == 4 && "pout"@[0] == 'p' && "pout"@[1] == 'o');
    assert("surprise"@.len() == 8 && "surprise"@[0] == 's' && "surprise"@[1] == 'u');
    assert("sweep"@.len() == 5 && "sweep"@[0] == 's' && "sweep"@[1] == 'w');
    assert("walk"@.len() == 4 && "walk"@[0] == 'w' && "walk"@[1] == 'a');
    assert("half_right"@.len() == 10 && "half_right"@[0] == 'h' && "half_right"@[1] == 'a');
    assert("welcome_agi"@.len() == 11 && "welcome_agi"@[0] == 'w' && "welcome_agi"@[1] == 'e');
    assert("agi_box"@.len() == 7 && "agi_box"@[0] == 'a' && "agi_box"@[1] == 'g');
    assert("drag_dangle"@.len() == 11 && "drag_dangle"@[0] == 'd' && "drag_dangle"@[1] == 'r');
    assert("scroll_tickle"@.len() == 13 && "scroll_tickle"@[0] == 's' && "scroll_tickle"@[1] == 'c');
    assert("bonk"@.len() == 4 && "bonk"@[0] == 'b' && "bonk"@[1] == 'o');
    assert("walk"@[2] != "wave"@[2]);
}

/// The speech labels of an action, for GEMMI-Chan (`is_gemmi`) or for GP-Chan.
pub fn get_action_labels(action: &str, is_gemmi: bool) -> (r: Vec<&'static str>)
    ensures
        texts_of(r@) == action_labels_spec(action@, is_gemmi),
{
    if same_text(action, "idle") {
        if is_gemmi { vec!["나 불렀어?", "심심해", "놀아줘"] } else { vec!["멍...", "생각중", "대기중"] }
    } else if same_text(action, "wave") {
        if is_gemmi { vec!["야호!", "여기야!", "봤지?"] } else { vec!["ㅎㅇ", "하이", "왔는가"] }
    } else if same_text(action, "think") {
        if is_gemmi { vec!["내가 맞음", "흠냐", "천재모드"] } else { vec!["흠...", "계산중", "그럴수도"] }
    } else if same_text(action, "typing") {
        if is_gemmi { vec!["숙제중!", "타닥타닥", "답안작성"] } else { vec!["토큰입력중", "타닥타닥", "작성중"] }
    } else if same_text(action, "cheer") {
        if is_gemmi { vec!["상장감!", "칭찬해줘", "내가 일등"] } else { vec!["힘내 휴먼", "할수있다", "가보자"] }
    } else if same_text(action, "sit") {
        if is_gemmi { vec!["삐짐", "쉬는중", "책상점령"] } else { vec!["절전중", "쉬는중", "잠깐휴식"] }
    } else if same_text(action, "sleep") {
        if is_gemmi { vec!["졸려...", "5분만", "수업끝?"] } else { vec!["Zzz..", "수면중", "충전중"] }
    } else if same_text(action, "pout") {
        if is_gemmi { vec!["아니거든!", "흥!", "내가 맞아"] } else { vec!["억까임", "흥...", "이건 억까"] }
    } else if same_text(action, "surprise") {
        if is_gemmi { vec!["으악!", "뭐야!", "깜짝이야"] } else { vec!["어라?", "헉", "뭐임?"] }
    } else if same_text(action, "sweep") {
        if is_gemmi { vec!["청소싫어!", "대충싹싹", "내가왜?"] } else { vec!["청소각", "싹싹", "정리중"] }
    } else if same_text(action, "walk") {
        if is_gemmi { vec!["돌격!", "우다다", "순찰놀이"] } else { vec!["순찰중", "어슬렁", "이동중"] }
    } else if same_text(action, "half_right") {
        if is_gemmi { vec!["반만 맞음"] } else { vec!["반만 맞습니다", "절반만 인정", "애매하네요"] }
    } else if same_text(action, "welcome_agi") {
        if is_gemmi { vec!["AGI 조아"] } else { vec!["AGI 가즈아", "AGI 즈라", "특이점각"] }
    } else if same_text(action, "agi_box") {
        if is_gemmi { vec!["상자행"] } else { vec!["박스행", "망했음", "AGI ㅠㅠ"] }
    } else if same_text(action, "drag_dangle") {
        if is_gemmi { vec!["놔줘!", "매달림!", "으아아"] } else { vec!["놔라 휴먼", "살려줘", "대롱대롱"] }
    } else if same_text(action, "scroll_tickle") {
        if is_gemmi { vec!["꺄르륵", "간지러!", "하지마ㅋㅋ"] } else { vec!["아ㅋㅋ", "간지러", "그만ㅋㅋ"] }
    } else if same_text(action, "bonk") {
        if is_gemmi { vec!["아야!", "딱콩!", "복수할거야"] } else { vec!["아야", "딱콩!", "너무해"] }
    } else {
        Vec::new()
    }
}

/// The speech labels of a situation the pet reacts to (a resource under load,
/// or the night), for GEMMI-Chan or for GP-Chan; a few puzzled sounds for an
/// unknown situation.
pub open spec fn resource_labels_spec(resource: Seq<char>, is_gemmi: bool) -> Seq<Seq<char>> {
    if resource == "cpu_high"@ {
        if is_gemmi { seq!["으악, CPU가 불타고 있어!"@, "컴퓨터가 너무 힘들어해!"@, "열기 대박... 계란 구워도 되겠어"@, "CPU 살려어어!"@, "팬 돌아가는 소리 들려?"@] } else { seq!["CPU 풀가동! 힘내요!"@, "연산량이 엄청나네요"@, "CPU가 열일 중입니다!"@, "성능 한계 돌파!"@, "CPU 온도가 높아요!"@] }
    } else if resource == "ram_high"@ {
        if is_gemmi { seq!["메모리가 꽉 찼어! 답답해!"@, "나 들어갈 자리가 없잖아!"@, "정리 좀 해줘!"@, "램이 꽉꽉 찼어!"@, "비우기 좀 눌러주면 안 돼?"@] } else { seq!["메모리가 부족해요..."@, "정리가 필요해 보입니다"@, "RAM 사용량이 높아요!"@, "여유 공간이 거의 없네요"@, "메모리 최적화가 필요해요"@] }
    } else if resource == "gpu_high"@ {
        if is_gemmi { seq!["그래픽 카드가 비명을 질러!"@, "GPU가 활활! 타오른다!"@, "연기 나는 거 아냐?"@, "화면 뚫고 나올 것 같아!"@, "GPU 살려어!"@] } else { seq!["GPU 가열중! 뜨거워요!"@, "그래픽 연산이 많네요"@, "GPU 온도가 높습니다!"@, "VGA 성능 풀가동!"@, "열기가 느껴지네요"@] }
    } else if resource == "vram_high"@ {
        if is_gemmi { seq!["비디오 메모리 부족! 화면 멈추겠어!"@, "VRAM 꽉 찼어, 좀 비워줘!"@, "헐, 메모리 용량 실화야?"@, "그래픽 메모리가 꽉 찼어!"@, "텍스처가 너무 무거워!"@] } else { seq!["VRAM 부족! 정리가 필요해요"@, "비디오 메모리가 가득 찼습니다"@, "텍스처 로딩이 힘들어 보여요"@, "VRAM 용량이 간당간당해요"@, "그래픽 설정이 높나요?"@] }
    } else if resource == "night"@ {
        if is_gemmi { seq!["졸린데... 아직 안 자?"@, "나만 두고 잘 거야?"@, "밤샘은 피부에 안 좋대!"@, "하암... 잠 안 와?"@, "언제 잘 거야? 기다릴게"@] } else { seq!["야간 근무인가요?"@, "아직 깨어 계시네요"@, "늦은 밤입니다. 쉬엄쉬엄 하세요"@, "밤샘 작업 화이팅!"@, "충전이 필요한 시간이에요"@] }
    } else {
        seq!["..."@, "흠?"@, "어라?"@]
    }
}

/// The speech labels of every known situation, for GEMMI-Chan (`true`) and for
/// GP-Chan (`false`); any other situation gets a few puzzled sounds.
pub proof fn lemma_resource_label_table(resource: Seq<char>)
    ensures
        resource_labels_spec("cpu_high"@, true) == seq!["으악, CPU가 불타고 있어!"@, "컴퓨터가 너무 힘들어해!"@, "열기 대박... 계란 구워도 되겠어"@, "CPU 살려어어!"@, "팬 돌아가는 소리 들려?"@],
        resource_labels_spec("cpu_high"@, false) == seq!["CPU 풀가동! 힘내요!"@, "연산량이 엄청나네요"@, "CPU가 열일 중입니다!"@, "성능 한계 돌파!"@, "CPU 온도가 높아요!"@],
        resource_labels_spec("ram_high"@, true) == seq!["메모리가 꽉 찼어! 답답해!"@, "나 들어갈 자리가 없잖아!"@, "정리 좀 해줘!"@, "램이 꽉꽉 찼어!"@, "비우기 좀 눌러주면 안 돼?"@],
        resource_labels_spec("ram_high"@, false) == seq!["메모리가 부족해요..."@, "정리가 필요해 보입니다"@, "RAM 사용량이 높아요!"@, "여유 공간이 거의 없네요"@, "메모리 최적화가 필요해요"@],
        resource_labels_spec("gpu_high"@, true) == seq!["그래픽 카드가 비명을 질러!"@, "GPU가 활활! 타오른다!"@, "연기 나는 거 아냐?"@, "화면 뚫고 나올 것 같아!"@, "GPU 살려어!"@],
        resource_labels_spec("gpu_high"@, false) == seq!["GPU 가열중! 뜨거워요!"@, "그래픽 연산이 많네요"@, "GPU 온도가 높습니다!"@, "VGA 성능 풀가동!"@, "열기가 느껴지네요"@],
        resource_labels_spec("vram_high"@, true) == seq!["비디오 메모리 부족! 화면 멈추겠어!"@, "VRAM 꽉 찼어, 좀 비워줘!"@, "헐, 메모리 용량 실화야?"@, "그래픽 메모리가 꽉 찼어!"@, "텍스처가 너무 무거워!"@],
        resource_labels_spec("vram_high"@, false) == seq!["VRAM 부족! 정리가 필요해요"@, "비디오 메모리가 가득 찼습니다"@, "텍스처 로딩이 힘들어 보여요"@, "VRAM 용량이 간당간당해요"@, "그래픽 설정이 높나요?"@],
        resource_labels_spec("night"@, true) == seq!["졸린데... 아직 안 자?"@, "나만 두고 잘 거야?"@, "밤샘은 피부에 안 좋대!"@, "하암... 잠 안 와?"@, "언제 잘 거야? 기다릴게"@],
        resource_labels_spec("night"@, false) == seq!["야간 근무인가요?"@, "아직 깨어 계시네요"@, "늦은 밤입니다. 쉬엄쉬엄 하세요"@, "밤샘 작업 화이팅!"@, "충전이 필요한 시간이에요"@],
        (resource != "cpu_high"@ && resource != "ram_high"@ && resource != "gpu_high"@ && resource != "vram_high"@ && resource != "night"@) ==> resource_labels_spec(resource, true) == seq!["..."@, "흠?"@, "어라?"@] && resource_labels_spec(resource, false) == seq!["..."@, "흠?"@, "어라?"@],
{
    reveal_strlit("cpu_high");
    reveal_strlit("ram_high");
    reveal_strlit("gpu_high");
    reveal_strlit("vram_high");
    reveal_strlit("night");
    // Each name by its length and first characters, which tell them apart.
    assert("cpu_high"@.len() == 8 && "cpu_high"@[0] == 'c' && "cpu_high"@[1] == 'p');
    assert("ram_high"@.len() == 8 && "ram_high"@[0] == 'r' && "ram_high"@[1] == 'a');
    assert("gpu_high"@.len() == 8 && "gpu_high"@[0] == 'g' && "gpu_high"@[1] == 'p');
    assert("vram_high"@.len() == 9 && "vram_high"@[0] == 'v' && "vram_high"@[1] == 'r');
    assert("night"@.len() == 5 && "night"@[0] == 'n' && "night"@[1] == 'i');
}

/// The speech labels of a situation, as `resource_labels_spec` gives them.
fn resource_labels(resource: &str, is_gemmi: bool) -> (r: Vec<&'static str>)
    ensures
        texts_of(r@) == resource_labels_spec(resource@, is_gemmi),
        r@.len() > 0,
{
    if same_text(resource, "cpu_high") {
        if is_gemmi { vec!["으악, CPU가 불타고 있어!", "컴퓨터가 너무 힘들어해!", "열기 대박... 계란 구워도 되겠어", "CPU 살려어어!", "팬 돌아가는 소리 들려?"] } else { vec!["CPU 풀가동! 힘내요!", "연산량이 엄청나네요", "CPU가 열일 중입니다!", "성능 한계 돌파!", "CPU 온도가 높아요!"] }
    } else if same_text(resource, "ram_high") {
        if is_gemmi { vec!["메모리가 꽉 찼어! 답답해!", "나 들어갈 자리가 없잖아!", "정리 좀 해줘!", "램이 꽉꽉 찼어!", "비우기 좀 눌러주면 안 돼?"] } else { vec!["메모리가 부족해요...", "정리가 필요해 보입니다", "RAM 사용량이 높아요!", "여유 공간이 거의 없네요", "메모리 최적화가 필요해요"] }
    } else if same_text(resource, "gpu_high") {
        if is_gemmi { vec!["그래픽 카드가 비명을 질러!", "GPU가 활활! 타오른다!", "연기 나는 거 아냐?", "화면 뚫고 나올 것 같아!", "GPU 살려어!"] } else { vec!["GPU 가열중! 뜨거워요!", "그래픽 연산이 많네요", "GPU 온도가 높습니다!", "VGA 성능 풀가동!", "열기가 느껴지네요"] }
    } else if same_text(resource, "vram_high") {
        if is_gemmi { vec!["비디오 메모리 부족! 화면 멈추겠어!", "VRAM 꽉 찼어, 좀 비워줘!", "헐, 메모리 용량 실화야?", "그래픽 메모리가 꽉 찼어!", "텍스처가 너무 무거워!"] } else { vec!["VRAM 부족! 정리가 필요해요", "비디오 메모리가 가득 찼습니다", "텍스처 로딩이 힘들어 보여요", "VRAM 용량이 간당간당해요", "그래픽 설정이 높나요?"] }
    } else if same_text(resource, "night") {
        if is_gemmi { vec!["졸린데... 아직 안 자?", "나만 두고 잘 거야?", "밤샘은 피부에 안 좋대!", "하암... 잠 안 와?", "언제 잘 거야? 기다릴게"] } else { vec!["야간 근무인가요?", "아직 깨어 계시네요", "늦은 밤입니다. 쉬엄쉬엄 하세요", "밤샘 작업 화이팅!", "충전이 필요한 시간이에요"] }
    } else {
        vec!["...", "흠?", "어라?"]
    }
}

/// The label shown for an action in the action menu: its first speech label,
/// or the action's own name when it has none.
pub fn get_menu_action_label(action: &str, is_gemmi: bool) -> (r: String)
    ensures
        r@ == (if action_labels_spec(action@, is_gemmi).len() == 0 {
            action@
        } else {
            action_labels_spec(action@, is_gemmi)[0]
        }),
{
    let labels = get_action_labels(action, is_gemmi);
    if labels.len() == 0 {
        return String::from_str(action);
    }
    assert(texts_of(labels@)[0] == labels@[0]@);
    String::from_str(labels[0])
}

/// A speech label for an action, picked at random among its labels, or the
/// action's own name when it has none.
pub fn get_action_label(action: &str, is_gemmi: bool) -> (r: String)
    ensures
        action_labels_spec(action@, is_gemmi).len() == 0 ==> r@ == action@,
        action_labels_spec(action@, is_gemmi).len() > 0 ==> action_labels_spec(
            action@,
            is_gemmi,
        ).contains(r@),
{
    let labels = get_action_labels(action, is_gemmi);
    match choose_text(labels.as_slice()) {
        Some(t) => {
            let ghost i = choose|i: int| 0 <= i < labels@.len() && labels@[i] == t;
            assert(texts_of(labels@)[i] == t@);
            String::from_str(t)
        },
        None => String::from_str(action),
    }
}

/// A speech label for a situation, picked at random among its labels.
pub fn get_resource_label(resource: &str, is_gemmi: bool) -> (r: String)
    ensures
        resource_labels_spec(resource@, is_gemmi).contains(r@),
{
    let labels = resource_labels(resource, is_gemmi);
    match choose_text(labels.as_slice()) {
        Some(t) => {
            let ghost i = choose|i: int| 0 <= i < labels@.len() && labels@[i] == t;
            assert(texts_of(labels@)[i] == t@);
            String::from_str(t)
        },
        None => {
            assert(false);
            String::new()
        },
    }
}

} // verus!
