//! The opcode keys of the SME2 encoding tables do not overlap: no word matches
//! two rows of the multiply table, two rows of the multi-vector ALU table, or a
//! row of each. A lookup therefore finds the one row that matches, whatever the
//! order of the rows.

use vstd::prelude::*;
use crate::decode::sme::sme2::{alu_first_match, alu_row, first_match, sme2_row, ALU_FORMS_LEN, SME2_FORMS_LEN};

verus! {

/// Whether row `i` of the multiply table matches `word`.
pub open spec fn mul_hit(word: u32, i: int) -> bool {
    0 <= i < SME2_FORMS_LEN && match sme2_row(i as usize) {
        Some(f) => word & f.mask == f.val,
        None => false,
    }
}

/// Whether row `i` of the multi-vector ALU table matches `word`.
pub open spec fn alu_hit(word: u32, i: int) -> bool {
    0 <= i < ALU_FORMS_LEN && match alu_row(i as usize) {
        Some(f) => word & f.mask == f.val,
        None => false,
    }
}

/// The number of keys of the two tables together.
pub open spec fn keys_len() -> int {
    SME2_FORMS_LEN + ALU_FORMS_LEN
}

/// Whether key `k` matches `w`: the multiply table's rows are keys
/// `0..SME2_FORMS_LEN`, the ALU table's rows follow them.
#[verifier::opaque]
pub open spec fn key_hit(w: u32, k: int) -> bool {
    if k < SME2_FORMS_LEN {
        mul_hit(w, k)
    } else {
        alu_hit(w, k - SME2_FORMS_LEN)
    }
}

/// Whether no key from `k` on matches `w`.
#[verifier::opaque]
pub open spec fn none_from(w: u32, k: int) -> bool
    decreases keys_len() - k,
{
    if k < 0 || k >= keys_len() {
        true
    } else {
        !key_hit(w, k) && none_from(w, k + 1)
    }
}

/// Whether at most one key from `k` on matches `w`.
#[verifier::opaque]
pub open spec fn at_most_one_from(w: u32, k: int) -> bool
    decreases keys_len() - k,
{
    if k < 0 || k >= keys_len() {
        true
    } else if key_hit(w, k) {
        none_from(w, k + 1)
    } else {
        at_most_one_from(w, k + 1)
    }
}

/// The same property as [`at_most_one_from`] at key `0`, with every key written
/// out: `hK` is whether key `K` matches `w`, `aK` that no key from `K` on does,
/// `bK` that at most one key from `K` on does.
pub open spec fn keys_exclusive_literal(w: u32) -> bool {
    let h376 = w & 0xffe1fc63 == 0xc1a1e800; let a376 = !h376; let b376 = true;
    let h375 = w & 0xff61fc63 == 0xc161e800; let a375 = !h375 && a376; let b375 = if h375 { a376 } else { b376 };
    let h374 = w & 0xffe1fc21 == 0xc1a0e800; let a374 = !h374 && a375; let b374 = if h374 { a375 } else { b375 };
    let h373 = w & 0xff61fc21 == 0xc160e800; let a373 = !h373 && a374; let b373 = if h373 { a374 } else { b374 };
    let h372 = w & 0xff23ffe3 == 0xc120b921; let a372 = !h372 && a373; let b372 = if h372 { a373 } else { b373 };
    let h371 = w & 0xff23ffe3 == 0xc120b920; let a371 = !h371 && a372; let b371 = if h371 { a372 } else { b372 };
    let h370 = w & 0xff23ffe3 == 0xc120b901; let a370 = !h370 && a371; let b370 = if h370 { a371 } else { b371 };
    let h369 = w & 0xff23ffe3 == 0xc120b900; let a369 = !h369 && a370; let b369 = if h369 { a370 } else { b370 };
    let h368 = w & 0xff21ffe1 == 0xc120b121; let a368 = !h368 && a369; let b368 = if h368 { a369 } else { b369 };
    let h367 = w & 0xff21ffe1 == 0xc120b120; let a367 = !h367 && a368; let b367 = if h367 { a368 } else { b368 };
    let h366 = w & 0xff21ffe1 == 0xc120b101; let a366 = !h366 && a367; let b366 = if h366 { a367 } else { b367 };
    let h365 = w & 0xff21ffe1 == 0xc120b100; let a365 = !h365 && a366; let b365 = if h365 { a366 } else { b366 };
    let h364 = w & 0xffe3fc63 == 0xc1a1e400; let a364 = !h364 && a365; let b364 = if h364 { a365 } else { b365 };
    let h363 = w & 0xff63fc63 == 0xc161e400; let a363 = !h363 && a364; let b363 = if h363 { a364 } else { b364 };
    let h362 = w & 0xffe1fc21 == 0xc1a0e400; let a362 = !h362 && a363; let b362 = if h362 { a363 } else { b363 };
    let h361 = w & 0xff61fc21 == 0xc160e400; let a361 = !h361 && a362; let b361 = if h361 { a362 } else { b362 };
    let h360 = w & 0xffe1fc63 == 0xc121e800; let a360 = !h360 && a361; let b360 = if h360 { a361 } else { b361 };
    let h359 = w & 0xffe1fc21 == 0xc120e800; let a359 = !h359 && a360; let b359 = if h359 { a360 } else { b360 };
    let h358 = w & 0xffe3fc63 == 0xc121e400; let a358 = !h358 && a359; let b358 = if h358 { a359 } else { b359 };
    let h357 = w & 0xffe1fc21 == 0xc120e400; let a357 = !h357 && a358; let b357 = if h357 { a358 } else { b358 };
    let h356 = w & 0xff3efc63 == 0xc136e002; let a356 = !h356 && a357; let b356 = if h356 { a357 } else { b357 };
    let h355 = w & 0xff3efc63 == 0xc136e000; let a355 = !h355 && a356; let b355 = if h355 { a356 } else { b356 };
    let h354 = w & 0xff20f801 == 0xc120d001; let a354 = !h354 && a355; let b354 = if h354 { a355 } else { b355 };
    let h353 = w & 0xff20f801 == 0xc120d000; let a353 = !h353 && a354; let b353 = if h353 { a354 } else { b354 };
    let h352 = w & 0xffe0fc03 == 0xc1a0c800; let a352 = !h352 && a353; let b352 = if h352 { a353 } else { b353 };
    let h351 = w & 0xff60fc03 == 0xc160c800; let a351 = !h351 && a352; let b351 = if h351 { a352 } else { b352 };
    let h350 = w & 0xffe0fc01 == 0xc1a0c000; let a350 = !h350 && a351; let b350 = if h350 { a351 } else { b351 };
    let h349 = w & 0xff60fc01 == 0xc160c000; let a349 = !h349 && a350; let b349 = if h349 { a350 } else { b350 };
    let h348 = w & 0xffe0fc03 == 0xc120c800; let a348 = !h348 && a349; let b348 = if h348 { a349 } else { b349 };
    let h347 = w & 0xffe0fc01 == 0xc120c000; let a347 = !h347 && a348; let b347 = if h347 { a348 } else { b348 };
    let h346 = w & 0xff20fc03 == 0xc120cc01; let a346 = !h346 && a347; let b346 = if h346 { a347 } else { b347 };
    let h345 = w & 0xff20fc03 == 0xc120cc00; let a345 = !h345 && a346; let b345 = if h345 { a346 } else { b346 };
    let h344 = w & 0xff20fc01 == 0xc120c401; let a344 = !h344 && a345; let b344 = if h344 { a345 } else { b345 };
    let h343 = w & 0xff20fc01 == 0xc120c400; let a343 = !h343 && a344; let b343 = if h343 { a344 } else { b344 };
    let h342 = w & 0xff23e063 == 0xc1218000; let a342 = !h342 && a343; let b342 = if h342 { a343 } else { b343 };
    let h341 = w & 0xff21e021 == 0xc1208000; let a341 = !h341 && a342; let b341 = if h341 { a342 } else { b342 };
    let h340 = w & 0xfff09078 == 0xc1508030; let a340 = !h340 && a341; let b340 = if h340 { a341 } else { b341 };
    let h339 = w & 0xfff09078 == 0xc1508020; let a339 = !h339 && a340; let b339 = if h339 { a340 } else { b340 };
    let h338 = w & 0xfff09030 == 0xc1d01020; let a338 = !h338 && a339; let b338 = if h338 { a339 } else { b339 };
    let h337 = w & 0xfff09c18 == 0xc1301018; let a337 = !h337 && a338; let b337 = if h337 { a338 } else { b338 };
    let h336 = w & 0xfff09078 == 0xc1508008; let a336 = !h336 && a337; let b336 = if h336 { a337 } else { b337 };
    let h335 = w & 0xffe39c78 == 0xc1a11030; let a335 = !h335 && a336; let b335 = if h335 { a336 } else { b336 };
    let h334 = w & 0xfff09c18 == 0xc1201018; let a334 = !h334 && a335; let b334 = if h334 { a335 } else { b335 };
    let h333 = w & 0xfff09038 == 0xc1500038; let a333 = !h333 && a334; let b333 = if h333 { a334 } else { b334 };
    let h332 = w & 0xffe19c38 == 0xc1a01030; let a332 = !h332 && a333; let b332 = if h332 { a333 } else { b333 };
    let h331 = w & 0xfff09038 == 0xc1500030; let a331 = !h331 && a332; let b331 = if h331 { a332 } else { b332 };
    let h330 = w & 0xfff09878 == 0xc1d08818; let a330 = !h330 && a331; let b330 = if h330 { a331 } else { b331 };
    let h329 = w & 0xfff09078 == 0xc1508028; let a329 = !h329 && a330; let b329 = if h329 { a330 } else { b330 };
    let h328 = w & 0xfff09c18 == 0xc1301408; let a328 = !h328 && a329; let b328 = if h328 { a329 } else { b329 };
    let h327 = w & 0xfff09078 == 0xc1509028; let a327 = !h327 && a328; let b327 = if h327 { a328 } else { b328 };
    let h326 = w & 0xffe39c78 == 0xc1a11408; let a326 = !h326 && a327; let b326 = if h326 { a327 } else { b327 };
    let h325 = w & 0xfff09c18 == 0xc1201408; let a325 = !h325 && a326; let b325 = if h325 { a326 } else { b326 };
    let h324 = w & 0xfff09038 == 0xc1501028; let a324 = !h324 && a325; let b324 = if h324 { a325 } else { b325 };
    let h323 = w & 0xffe19c38 == 0xc1a01408; let a323 = !h323 && a324; let b323 = if h323 { a324 } else { b324 };
    let h322 = w & 0xfff09c18 == 0xc1701418; let a322 = !h322 && a323; let b322 = if h322 { a323 } else { b323 };
    let h321 = w & 0xfff09078 == 0xc1509010; let a321 = !h321 && a322; let b321 = if h321 { a322 } else { b322 };
    let h320 = w & 0xffe39c78 == 0xc1e11418; let a320 = !h320 && a321; let b320 = if h320 { a321 } else { b321 };
    let h319 = w & 0xfff09c18 == 0xc1601418; let a319 = !h319 && a320; let b319 = if h319 { a320 } else { b320 };
    let h318 = w & 0xfff09038 == 0xc1501010; let a318 = !h318 && a319; let b318 = if h318 { a319 } else { b319 };
    let h317 = w & 0xffe19c38 == 0xc1e01418; let a317 = !h317 && a318; let b317 = if h317 { a318 } else { b318 };
    let h316 = w & 0xfff09c18 == 0xc1301410; let a316 = !h316 && a317; let b316 = if h316 { a317 } else { b317 };
    let h315 = w & 0xfff09078 == 0xc1509030; let a315 = !h315 && a316; let b315 = if h315 { a316 } else { b316 };
    let h314 = w & 0xffe39c78 == 0xc1a11410; let a314 = !h314 && a315; let b314 = if h314 { a315 } else { b315 };
    let h313 = w & 0xfff09c18 == 0xc1201410; let a313 = !h313 && a314; let b313 = if h313 { a314 } else { b314 };
    let h312 = w & 0xfff09038 == 0xc1501030; let a312 = !h312 && a313; let b312 = if h312 { a313 } else { b313 };
    let h311 = w & 0xffe19c38 == 0xc1a01410; let a311 = !h311 && a312; let b311 = if h311 { a312 } else { b312 };
    let h310 = w & 0xfff09c18 == 0xc1701410; let a310 = !h310 && a311; let b310 = if h310 { a311 } else { b311 };
    let h309 = w & 0xfff09878 == 0xc1d08018; let a309 = !h309 && a310; let b309 = if h309 { a310 } else { b310 };
    let h308 = w & 0xffe39c78 == 0xc1e11410; let a308 = !h308 && a309; let b308 = if h308 { a309 } else { b309 };
    let h307 = w & 0xfff09c18 == 0xc1601410; let a307 = !h307 && a308; let b307 = if h307 { a308 } else { b308 };
    let h306 = w & 0xfff09838 == 0xc1d00018; let a306 = !h306 && a307; let b306 = if h306 { a307 } else { b307 };
    let h305 = w & 0xffe19c38 == 0xc1e01410; let a305 = !h305 && a306; let b305 = if h305 { a306 } else { b306 };
    let h304 = w & 0xfff09038 == 0xc1500020; let a304 = !h304 && a305; let b304 = if h304 { a305 } else { b305 };
    let h303 = w & 0xfff09878 == 0xc1d08808; let a303 = !h303 && a304; let b303 = if h303 { a304 } else { b304 };
    let h302 = w & 0xfff09078 == 0xc1508038; let a302 = !h302 && a303; let b302 = if h302 { a303 } else { b303 };
    let h301 = w & 0xfff09c18 == 0xc1301418; let a301 = !h301 && a302; let b301 = if h301 { a302 } else { b302 };
    let h300 = w & 0xfff09078 == 0xc1509038; let a300 = !h300 && a301; let b300 = if h300 { a301 } else { b301 };
    let h299 = w & 0xfff09c18 == 0xc1201418; let a299 = !h299 && a300; let b299 = if h299 { a300 } else { b300 };
    let h298 = w & 0xfff09038 == 0xc1501038; let a298 = !h298 && a299; let b298 = if h298 { a299 } else { b299 };
    let h297 = w & 0xfff09c18 == 0xc1301818; let a297 = !h297 && a298; let b297 = if h297 { a298 } else { b298 };
    let h296 = w & 0xffff9c78 == 0xc1a11c18; let a296 = !h296 && a297; let b296 = if h296 { a297 } else { b297 };
    let h295 = w & 0xffe39c78 == 0xc1a11818; let a295 = !h295 && a296; let b295 = if h295 { a296 } else { b296 };
    let h294 = w & 0xfff09c18 == 0xc1201818; let a294 = !h294 && a295; let b294 = if h294 { a295 } else { b295 };
    let h293 = w & 0xffff9c38 == 0xc1a01c18; let a293 = !h293 && a294; let b293 = if h293 { a294 } else { b294 };
    let h292 = w & 0xffe19c38 == 0xc1a01818; let a292 = !h292 && a293; let b292 = if h292 { a293 } else { b293 };
    let h291 = w & 0xfff09c18 == 0xc1701818; let a291 = !h291 && a292; let b291 = if h291 { a292 } else { b292 };
    let h290 = w & 0xffff9c78 == 0xc1e11c18; let a290 = !h290 && a291; let b290 = if h290 { a291 } else { b291 };
    let h289 = w & 0xffe39c78 == 0xc1e11818; let a289 = !h289 && a290; let b289 = if h289 { a290 } else { b290 };
    let h288 = w & 0xfff09c18 == 0xc1601818; let a288 = !h288 && a289; let b288 = if h288 { a289 } else { b289 };
    let h287 = w & 0xffff9c38 == 0xc1e01c18; let a287 = !h287 && a288; let b287 = if h287 { a288 } else { b288 };
    let h286 = w & 0xffe19c38 == 0xc1e01818; let a286 = !h286 && a287; let b286 = if h286 { a287 } else { b287 };
    let h285 = w & 0xfff09c18 == 0xc1701408; let a285 = !h285 && a286; let b285 = if h285 { a286 } else { b286 };
    let h284 = w & 0xfff09078 == 0xc1509000; let a284 = !h284 && a285; let b284 = if h284 { a285 } else { b285 };
    let h283 = w & 0xffe39c78 == 0xc1e11408; let a283 = !h283 && a284; let b283 = if h283 { a284 } else { b284 };
    let h282 = w & 0xfff09c18 == 0xc1601408; let a282 = !h282 && a283; let b282 = if h282 { a283 } else { b283 };
    let h281 = w & 0xfff09038 == 0xc1501000; let a281 = !h281 && a282; let b281 = if h281 { a282 } else { b282 };
    let h280 = w & 0xffe19c38 == 0xc1e01408; let a280 = !h280 && a281; let b280 = if h280 { a281 } else { b281 };
    let h279 = w & 0xfff09c18 == 0xc1301400; let a279 = !h279 && a280; let b279 = if h279 { a280 } else { b280 };
    let h278 = w & 0xfff09078 == 0xc1509020; let a278 = !h278 && a279; let b278 = if h278 { a279 } else { b279 };
    let h277 = w & 0xffe39c78 == 0xc1a11400; let a277 = !h277 && a278; let b277 = if h277 { a278 } else { b278 };
    let h276 = w & 0xfff09c18 == 0xc1201400; let a276 = !h276 && a277; let b276 = if h276 { a277 } else { b277 };
    let h275 = w & 0xfff09038 == 0xc1501020; let a275 = !h275 && a276; let b275 = if h275 { a276 } else { b276 };
    let h274 = w & 0xffe19c38 == 0xc1a01400; let a274 = !h274 && a275; let b274 = if h274 { a275 } else { b275 };
    let h273 = w & 0xfff09c18 == 0xc1701400; let a273 = !h273 && a274; let b273 = if h273 { a274 } else { b274 };
    let h272 = w & 0xfff09878 == 0xc1d08008; let a272 = !h272 && a273; let b272 = if h272 { a273 } else { b273 };
    let h271 = w & 0xffe39c78 == 0xc1e11400; let a271 = !h271 && a272; let b271 = if h271 { a272 } else { b272 };
    let h270 = w & 0xfff09c18 == 0xc1601400; let a270 = !h270 && a271; let b270 = if h270 { a271 } else { b271 };
    let h269 = w & 0xfff09838 == 0xc1d00008; let a269 = !h269 && a270; let b269 = if h269 { a270 } else { b270 };
    let h268 = w & 0xffe19c38 == 0xc1e01400; let a268 = !h268 && a269; let b268 = if h268 { a269 } else { b269 };
    let h267 = w & 0xfff09830 == 0xc1d00810; let a267 = !h267 && a268; let b267 = if h267 { a268 } else { b268 };
    let h266 = w & 0xfff09830 == 0xc1d00800; let a266 = !h266 && a267; let b266 = if h266 { a267 } else { b267 };
    let h265 = w & 0xfff09038 == 0xc1500008; let a265 = !h265 && a266; let b265 = if h265 { a266 } else { b266 };
    let h264 = w & 0xffff9c78 == 0xc1a11c08; let a264 = !h264 && a265; let b264 = if h264 { a265 } else { b265 };
    let h263 = w & 0xffff9c38 == 0xc1a01c08; let a263 = !h263 && a264; let b263 = if h263 { a264 } else { b264 };
    let h262 = w & 0xffff9c78 == 0xc1e51c08; let a262 = !h262 && a263; let b262 = if h262 { a263 } else { b263 };
    let h261 = w & 0xffff9c38 == 0xc1e41c08; let a261 = !h261 && a262; let b261 = if h261 { a262 } else { b262 };
    let h260 = w & 0xffff9c78 == 0xc1e51c00; let a260 = !h260 && a261; let b260 = if h260 { a261 } else { b261 };
    let h259 = w & 0xffff9c38 == 0xc1e41c00; let a259 = !h259 && a260; let b259 = if h259 { a260 } else { b260 };
    let h258 = w & 0xffff9c78 == 0xc1a51c08; let a258 = !h258 && a259; let b258 = if h258 { a259 } else { b259 };
    let h257 = w & 0xffff9c38 == 0xc1a41c08; let a257 = !h257 && a258; let b257 = if h257 { a258 } else { b258 };
    let h256 = w & 0xffff9c78 == 0xc1e11c08; let a256 = !h256 && a257; let b256 = if h256 { a257 } else { b257 };
    let h255 = w & 0xffff9c38 == 0xc1e01c08; let a255 = !h255 && a256; let b255 = if h255 { a256 } else { b256 };
    let h254 = w & 0xfff09c18 == 0xc1301000; let a254 = !h254 && a255; let b254 = if h254 { a255 } else { b255 };
    let h253 = w & 0xfff09078 == 0xc1509008; let a253 = !h253 && a254; let b253 = if h253 { a254 } else { b254 };
    let h252 = w & 0xffe39c78 == 0xc1a11000; let a252 = !h252 && a253; let b252 = if h252 { a253 } else { b253 };
    let h251 = w & 0xfff09c18 == 0xc1201000; let a251 = !h251 && a252; let b251 = if h251 { a252 } else { b252 };
    let h250 = w & 0xfff09038 == 0xc1501008; let a250 = !h250 && a251; let b250 = if h250 { a251 } else { b251 };
    let h249 = w & 0xffe19c38 == 0xc1a01000; let a249 = !h249 && a250; let b249 = if h249 { a250 } else { b250 };
    let h248 = w & 0xfff09c18 == 0xc1301008; let a248 = !h248 && a249; let b248 = if h248 { a249 } else { b249 };
    let h247 = w & 0xfff09070 == 0xc1109040; let a247 = !h247 && a248; let b247 = if h247 { a248 } else { b248 };
    let h246 = w & 0xffe39c78 == 0xc1a11020; let a246 = !h246 && a247; let b246 = if h246 { a247 } else { b247 };
    let h245 = w & 0xfff09c18 == 0xc1201008; let a245 = !h245 && a246; let b245 = if h245 { a246 } else { b246 };
    let h244 = w & 0xfff09030 == 0xc1d00020; let a244 = !h244 && a245; let b244 = if h244 { a245 } else { b245 };
    let h243 = w & 0xffe19c38 == 0xc1a01020; let a243 = !h243 && a244; let b243 = if h243 { a244 } else { b244 };
    let h242 = w & 0xffff9c78 == 0xc1a11c00; let a242 = !h242 && a243; let b242 = if h242 { a243 } else { b243 };
    let h241 = w & 0xffff9c38 == 0xc1a01c00; let a241 = !h241 && a242; let b241 = if h241 { a242 } else { b242 };
    let h240 = w & 0xffff9c78 == 0xc1a51c00; let a240 = !h240 && a241; let b240 = if h240 { a241 } else { b241 };
    let h239 = w & 0xffff9c38 == 0xc1a41c00; let a239 = !h239 && a240; let b239 = if h239 { a240 } else { b240 };
    let h238 = w & 0xffff9c78 == 0xc1e11c00; let a238 = !h238 && a239; let b238 = if h238 { a239 } else { b239 };
    let h237 = w & 0xffff9c38 == 0xc1e01c00; let a237 = !h237 && a238; let b237 = if h237 { a238 } else { b238 };
    let h236 = w & 0xfff09038 == 0xc1500018; let a236 = !h236 && a237; let b236 = if h236 { a237 } else { b237 };
    let h235 = w & 0xfff09c18 == 0xc1301010; let a235 = !h235 && a236; let b235 = if h235 { a236 } else { b236 };
    let h234 = w & 0xfff09078 == 0xc1509018; let a234 = !h234 && a235; let b234 = if h234 { a235 } else { b235 };
    let h233 = w & 0xffe39c78 == 0xc1a11010; let a233 = !h233 && a234; let b233 = if h233 { a234 } else { b234 };
    let h232 = w & 0xfff09c18 == 0xc1201010; let a232 = !h232 && a233; let b232 = if h232 { a233 } else { b233 };
    let h231 = w & 0xfff09038 == 0xc1501018; let a231 = !h231 && a232; let b231 = if h231 { a232 } else { b232 };
    let h230 = w & 0xffe19c38 == 0xc1a01010; let a230 = !h230 && a231; let b230 = if h230 { a231 } else { b231 };
    let h229 = w & 0xfff09c18 == 0xc1301810; let a229 = !h229 && a230; let b229 = if h229 { a230 } else { b230 };
    let h228 = w & 0xffff9c78 == 0xc1a11c10; let a228 = !h228 && a229; let b228 = if h228 { a229 } else { b229 };
    let h227 = w & 0xffe39c78 == 0xc1a11810; let a227 = !h227 && a228; let b227 = if h227 { a228 } else { b228 };
    let h226 = w & 0xfff09c18 == 0xc1201810; let a226 = !h226 && a227; let b226 = if h226 { a227 } else { b227 };
    let h225 = w & 0xffff9c38 == 0xc1a01c10; let a225 = !h225 && a226; let b225 = if h225 { a226 } else { b226 };
    let h224 = w & 0xffe19c38 == 0xc1a01810; let a224 = !h224 && a225; let b224 = if h224 { a225 } else { b225 };
    let h223 = w & 0xfff09c18 == 0xc1701810; let a223 = !h223 && a224; let b223 = if h223 { a224 } else { b224 };
    let h222 = w & 0xffff9c78 == 0xc1e11c10; let a222 = !h222 && a223; let b222 = if h222 { a223 } else { b223 };
    let h221 = w & 0xffe39c78 == 0xc1e11810; let a221 = !h221 && a222; let b221 = if h221 { a222 } else { b222 };
    let h220 = w & 0xfff09c18 == 0xc1601810; let a220 = !h220 && a221; let b220 = if h220 { a221 } else { b221 };
    let h219 = w & 0xffff9c38 == 0xc1e01c10; let a219 = !h219 && a220; let b219 = if h219 { a220 } else { b220 };
    let h218 = w & 0xffe19c38 == 0xc1e01810; let a218 = !h218 && a219; let b218 = if h218 { a219 } else { b219 };
    let h217 = w & 0xffe0e00c == 0x81408008; let a217 = !h217 && a218; let b217 = if h217 { a218 } else { b218 };
    let h216 = w & 0xffe0e00c == 0x81608000; let a216 = !h216 && a217; let b216 = if h216 { a217 } else { b217 };
    let h215 = w & 0xffe0e00c == 0x81408000; let a215 = !h215 && a216; let b215 = if h215 { a216 } else { b216 };
    let h214 = w & 0xfff09c1e == 0xc1300004; let a214 = !h214 && a215; let b214 = if h214 { a215 } else { b215 };
    let h213 = w & 0xfff09078 == 0xc1108020; let a213 = !h213 && a214; let b213 = if h213 { a214 } else { b214 };
    let h212 = w & 0xffe39c7e == 0xc1a10004; let a212 = !h212 && a213; let b212 = if h212 { a213 } else { b213 };
    let h211 = w & 0xfff09c1e == 0xc1200004; let a211 = !h211 && a212; let b211 = if h211 { a212 } else { b212 };
    let h210 = w & 0xfff09038 == 0xc1100020; let a210 = !h210 && a211; let b210 = if h210 { a211 } else { b211 };
    let h209 = w & 0xffe19c3e == 0xc1a00004; let a209 = !h209 && a210; let b209 = if h209 { a210 } else { b210 };
    let h208 = w & 0xfff09c1c == 0xc1200404; let a208 = !h208 && a209; let b208 = if h208 { a209 } else { b209 };
    let h207 = w & 0xfff0001c == 0xc1000004; let a207 = !h207 && a208; let b207 = if h207 { a208 } else { b208 };
    let h206 = w & 0xfff09c1e == 0xc1300018; let a206 = !h206 && a207; let b206 = if h206 { a207 } else { b207 };
    let h205 = w & 0xfff09078 == 0xc1108018; let a205 = !h205 && a206; let b205 = if h205 { a206 } else { b206 };
    let h204 = w & 0xffe39c7e == 0xc1a10018; let a204 = !h204 && a205; let b204 = if h204 { a205 } else { b205 };
    let h203 = w & 0xfff09c1e == 0xc1200018; let a203 = !h203 && a204; let b203 = if h203 { a204 } else { b204 };
    let h202 = w & 0xfff09038 == 0xc1100018; let a202 = !h202 && a203; let b202 = if h202 { a203 } else { b203 };
    let h201 = w & 0xffe19c3e == 0xc1a00018; let a201 = !h201 && a202; let b201 = if h201 { a202 } else { b202 };
    let h200 = w & 0xfff09c1c == 0xc1200418; let a200 = !h200 && a201; let b200 = if h200 { a201 } else { b201 };
    let h199 = w & 0xfff0001c == 0xc1000018; let a199 = !h199 && a200; let b199 = if h199 { a200 } else { b200 };
    let h198 = w & 0xfff09c1e == 0xc1700018; let a198 = !h198 && a199; let b198 = if h198 { a199 } else { b199 };
    let h197 = w & 0xfff09878 == 0xc1908018; let a197 = !h197 && a198; let b197 = if h197 { a198 } else { b198 };
    let h196 = w & 0xffe39c7e == 0xc1e10018; let a196 = !h196 && a197; let b196 = if h196 { a197 } else { b197 };
    let h195 = w & 0xfff09c1e == 0xc1600018; let a195 = !h195 && a196; let b195 = if h195 { a196 } else { b196 };
    let h194 = w & 0xfff09838 == 0xc1900018; let a194 = !h194 && a195; let b194 = if h194 { a195 } else { b195 };
    let h193 = w & 0xffe19c3e == 0xc1e00018; let a193 = !h193 && a194; let b193 = if h193 { a194 } else { b194 };
    let h192 = w & 0xfff09c1c == 0xc1600418; let a192 = !h192 && a193; let b192 = if h192 { a193 } else { b193 };
    let h191 = w & 0xfff0101c == 0xc1800018; let a191 = !h191 && a192; let b191 = if h191 { a192 } else { b192 };
    let h190 = w & 0xfff09c1c == 0xc1700818; let a190 = !h190 && a191; let b190 = if h190 { a191 } else { b191 };
    let h189 = w & 0xfff09078 == 0xc1d09018; let a189 = !h189 && a190; let b189 = if h189 { a190 } else { b190 };
    let h188 = w & 0xffe39c7c == 0xc1e10818; let a188 = !h188 && a189; let b188 = if h188 { a189 } else { b189 };
    let h187 = w & 0xfff09c1c == 0xc1600818; let a187 = !h187 && a188; let b187 = if h187 { a188 } else { b188 };
    let h186 = w & 0xfff09038 == 0xc1d01018; let a186 = !h186 && a187; let b186 = if h186 { a187 } else { b187 };
    let h185 = w & 0xffe19c3c == 0xc1e00818; let a185 = !h185 && a186; let b185 = if h185 { a186 } else { b186 };
    let h184 = w & 0xfff09c18 == 0xc1600c18; let a184 = !h184 && a185; let b184 = if h184 { a185 } else { b185 };
    let h183 = w & 0xfff01018 == 0xc1c01018; let a183 = !h183 && a184; let b183 = if h183 { a184 } else { b184 };
    let h182 = w & 0xfff09c1e == 0xc1300010; let a182 = !h182 && a183; let b182 = if h182 { a183 } else { b183 };
    let h181 = w & 0xfff09078 == 0xc1108010; let a181 = !h181 && a182; let b181 = if h181 { a182 } else { b182 };
    let h180 = w & 0xffe39c7e == 0xc1a10010; let a180 = !h180 && a181; let b180 = if h180 { a181 } else { b181 };
    let h179 = w & 0xfff09c1e == 0xc1200010; let a179 = !h179 && a180; let b179 = if h179 { a180 } else { b180 };
    let h178 = w & 0xfff09038 == 0xc1100010; let a178 = !h178 && a179; let b178 = if h178 { a179 } else { b179 };
    let h177 = w & 0xffe19c3e == 0xc1a00010; let a177 = !h177 && a178; let b177 = if h177 { a178 } else { b178 };
    let h176 = w & 0xfff09c1c == 0xc1200410; let a176 = !h176 && a177; let b176 = if h176 { a177 } else { b177 };
    let h175 = w & 0xfff0001c == 0xc1000010; let a175 = !h175 && a176; let b175 = if h175 { a176 } else { b176 };
    let h174 = w & 0xfff09c1e == 0xc1700010; let a174 = !h174 && a175; let b174 = if h174 { a175 } else { b175 };
    let h173 = w & 0xfff09878 == 0xc1908010; let a173 = !h173 && a174; let b173 = if h173 { a174 } else { b174 };
    let h172 = w & 0xffe39c7e == 0xc1e10010; let a172 = !h172 && a173; let b172 = if h172 { a173 } else { b173 };
    let h171 = w & 0xfff09c1e == 0xc1600010; let a171 = !h171 && a172; let b171 = if h171 { a172 } else { b172 };
    let h170 = w & 0xfff09838 == 0xc1900010; let a170 = !h170 && a171; let b170 = if h170 { a171 } else { b171 };
    let h169 = w & 0xffe19c3e == 0xc1e00010; let a169 = !h169 && a170; let b169 = if h169 { a170 } else { b170 };
    let h168 = w & 0xfff09c1c == 0xc1600410; let a168 = !h168 && a169; let b168 = if h168 { a169 } else { b169 };
    let h167 = w & 0xfff0101c == 0xc1800010; let a167 = !h167 && a168; let b167 = if h167 { a168 } else { b168 };
    let h166 = w & 0xfff09c1c == 0xc1700810; let a166 = !h166 && a167; let b166 = if h166 { a167 } else { b167 };
    let h165 = w & 0xfff09078 == 0xc1d09010; let a165 = !h165 && a166; let b165 = if h165 { a166 } else { b166 };
    let h164 = w & 0xffe39c7c == 0xc1e10810; let a164 = !h164 && a165; let b164 = if h164 { a165 } else { b165 };
    let h163 = w & 0xfff09c1c == 0xc1600810; let a163 = !h163 && a164; let b163 = if h163 { a164 } else { b164 };
    let h162 = w & 0xfff09038 == 0xc1d01010; let a162 = !h162 && a163; let b162 = if h162 { a163 } else { b163 };
    let h161 = w & 0xffe19c3c == 0xc1e00810; let a161 = !h161 && a162; let b161 = if h161 { a162 } else { b162 };
    let h160 = w & 0xfff09c18 == 0xc1600c10; let a160 = !h160 && a161; let b160 = if h160 { a161 } else { b161 };
    let h159 = w & 0xfff01018 == 0xc1c01010; let a159 = !h159 && a160; let b159 = if h159 { a160 } else { b160 };
    let h158 = w & 0xffe0e00c == 0x80608000; let a158 = !h158 && a159; let b158 = if h158 { a159 } else { b159 };
    let h157 = w & 0xfff09c1e == 0xc1300014; let a157 = !h157 && a158; let b157 = if h157 { a158 } else { b158 };
    let h156 = w & 0xfff09078 == 0xc1108030; let a156 = !h156 && a157; let b156 = if h156 { a157 } else { b157 };
    let h155 = w & 0xfff09c1e == 0xc1200014; let a155 = !h155 && a156; let b155 = if h155 { a156 } else { b156 };
    let h154 = w & 0xfff09038 == 0xc1100030; let a154 = !h154 && a155; let b154 = if h154 { a155 } else { b155 };
    let h153 = w & 0xfff0001c == 0xc1000014; let a153 = !h153 && a154; let b153 = if h153 { a154 } else { b154 };
    let h152 = w & 0xffe0e00c == 0x80408008; let a152 = !h152 && a153; let b152 = if h152 { a153 } else { b153 };
    let h151 = w & 0xffe0e00c == 0x80408000; let a151 = !h151 && a152; let b151 = if h151 { a152 } else { b152 };
    let h150 = w & 0xfff09c1e == 0xc1300008; let a150 = !h150 && a151; let b150 = if h150 { a151 } else { b151 };
    let h149 = w & 0xfff09078 == 0xc1108008; let a149 = !h149 && a150; let b149 = if h149 { a150 } else { b150 };
    let h148 = w & 0xffe39c7e == 0xc1a10008; let a148 = !h148 && a149; let b148 = if h148 { a149 } else { b149 };
    let h147 = w & 0xfff09c1e == 0xc1200008; let a147 = !h147 && a148; let b147 = if h147 { a148 } else { b148 };
    let h146 = w & 0xfff09038 == 0xc1100008; let a146 = !h146 && a147; let b146 = if h146 { a147 } else { b147 };
    let h145 = w & 0xffe19c3e == 0xc1a00008; let a145 = !h145 && a146; let b145 = if h145 { a146 } else { b146 };
    let h144 = w & 0xfff09c1c == 0xc1200408; let a144 = !h144 && a145; let b144 = if h144 { a145 } else { b145 };
    let h143 = w & 0xfff0001c == 0xc1000008; let a143 = !h143 && a144; let b143 = if h143 { a144 } else { b144 };
    let h142 = w & 0xfff09c1e == 0xc1700008; let a142 = !h142 && a143; let b142 = if h142 { a143 } else { b143 };
    let h141 = w & 0xfff09878 == 0xc1908008; let a141 = !h141 && a142; let b141 = if h141 { a142 } else { b142 };
    let h140 = w & 0xffe39c7e == 0xc1e10008; let a140 = !h140 && a141; let b140 = if h140 { a141 } else { b141 };
    let h139 = w & 0xfff09c1e == 0xc1600008; let a139 = !h139 && a140; let b139 = if h139 { a140 } else { b140 };
    let h138 = w & 0xfff09838 == 0xc1900008; let a138 = !h138 && a139; let b138 = if h138 { a139 } else { b139 };
    let h137 = w & 0xffe19c3e == 0xc1e00008; let a137 = !h137 && a138; let b137 = if h137 { a138 } else { b138 };
    let h136 = w & 0xfff09c1c == 0xc1600408; let a136 = !h136 && a137; let b136 = if h136 { a137 } else { b137 };
    let h135 = w & 0xfff0101c == 0xc1800008; let a135 = !h135 && a136; let b135 = if h135 { a136 } else { b136 };
    let h134 = w & 0xfff09c1c == 0xc1700808; let a134 = !h134 && a135; let b134 = if h134 { a135 } else { b135 };
    let h133 = w & 0xfff09078 == 0xc1d09008; let a133 = !h133 && a134; let b133 = if h133 { a134 } else { b134 };
    let h132 = w & 0xffe39c7c == 0xc1e10808; let a132 = !h132 && a133; let b132 = if h132 { a133 } else { b133 };
    let h131 = w & 0xfff09c1c == 0xc1600808; let a131 = !h131 && a132; let b131 = if h131 { a132 } else { b132 };
    let h130 = w & 0xfff09038 == 0xc1d01008; let a130 = !h130 && a131; let b130 = if h130 { a131 } else { b131 };
    let h129 = w & 0xffe19c3c == 0xc1e00808; let a129 = !h129 && a130; let b129 = if h129 { a130 } else { b130 };
    let h128 = w & 0xfff09c18 == 0xc1600c08; let a128 = !h128 && a129; let b128 = if h128 { a129 } else { b129 };
    let h127 = w & 0xfff01018 == 0xc1c01008; let a127 = !h127 && a128; let b127 = if h127 { a128 } else { b128 };
    let h126 = w & 0xfff09c1e == 0xc1300000; let a126 = !h126 && a127; let b126 = if h126 { a127 } else { b127 };
    let h125 = w & 0xfff09078 == 0xc1108000; let a125 = !h125 && a126; let b125 = if h125 { a126 } else { b126 };
    let h124 = w & 0xffe39c7e == 0xc1a10000; let a124 = !h124 && a125; let b124 = if h124 { a125 } else { b125 };
    let h123 = w & 0xfff09c1e == 0xc1200000; let a123 = !h123 && a124; let b123 = if h123 { a124 } else { b124 };
    let h122 = w & 0xfff09038 == 0xc1100000; let a122 = !h122 && a123; let b122 = if h122 { a123 } else { b123 };
    let h121 = w & 0xffe19c3e == 0xc1a00000; let a121 = !h121 && a122; let b121 = if h121 { a122 } else { b122 };
    let h120 = w & 0xfff09c1c == 0xc1200400; let a120 = !h120 && a121; let b120 = if h120 { a121 } else { b121 };
    let h119 = w & 0xfff0001c == 0xc1000000; let a119 = !h119 && a120; let b119 = if h119 { a120 } else { b120 };
    let h118 = w & 0xfff09c1e == 0xc1700000; let a118 = !h118 && a119; let b118 = if h118 { a119 } else { b119 };
    let h117 = w & 0xfff09878 == 0xc1908000; let a117 = !h117 && a118; let b117 = if h117 { a118 } else { b118 };
    let h116 = w & 0xffe39c7e == 0xc1e10000; let a116 = !h116 && a117; let b116 = if h116 { a117 } else { b117 };
    let h115 = w & 0xfff09c1e == 0xc1600000; let a115 = !h115 && a116; let b115 = if h115 { a116 } else { b116 };
    let h114 = w & 0xfff09838 == 0xc1900000; let a114 = !h114 && a115; let b114 = if h114 { a115 } else { b115 };
    let h113 = w & 0xffe19c3e == 0xc1e00000; let a113 = !h113 && a114; let b113 = if h113 { a114 } else { b114 };
    let h112 = w & 0xfff09c1c == 0xc1600400; let a112 = !h112 && a113; let b112 = if h112 { a113 } else { b113 };
    let h111 = w & 0xfff0101c == 0xc1800000; let a111 = !h111 && a112; let b111 = if h111 { a112 } else { b112 };
    let h110 = w & 0xfff09c1c == 0xc1700800; let a110 = !h110 && a111; let b110 = if h110 { a111 } else { b111 };
    let h109 = w & 0xfff09078 == 0xc1d09000; let a109 = !h109 && a110; let b109 = if h109 { a110 } else { b110 };
    let h108 = w & 0xffe39c7c == 0xc1e10800; let a108 = !h108 && a109; let b108 = if h108 { a109 } else { b109 };
    let h107 = w & 0xfff09c1c == 0xc1600800; let a107 = !h107 && a108; let b107 = if h107 { a108 } else { b108 };
    let h106 = w & 0xfff09038 == 0xc1d01000; let a106 = !h106 && a107; let b106 = if h106 { a107 } else { b107 };
    let h105 = w & 0xffe19c3c == 0xc1e00800; let a105 = !h105 && a106; let b105 = if h105 { a106 } else { b106 };
    let h104 = w & 0xfff09c18 == 0xc1600c00; let a104 = !h104 && a105; let b104 = if h104 { a105 } else { b105 };
    let h103 = w & 0xfff01018 == 0xc1c01000; let a103 = !h103 && a104; let b103 = if h103 { a104 } else { b104 };
    let h102 = w & 0xffe0e00c == 0x80400000; let a102 = !h102 && a103; let b102 = if h102 { a103 } else { b103 };
    let h101 = w & 0xffe0e00c == 0x81600000; let a101 = !h101 && a102; let b101 = if h101 { a102 } else { b102 };
    let h100 = w & 0xffe0e00c == 0x80600000; let a100 = !h100 && a101; let b100 = if h100 { a101 } else { b101 };
    let h99 = w & 0xffe0e00e == 0x81400008; let a99 = !h99 && a100; let b99 = if h99 { a100 } else { b100 };
    let h98 = w & 0xffe0e00e == 0x80600008; let a98 = !h98 && a99; let b98 = if h98 { a99 } else { b99 };
    let h97 = w & 0xfff09c1c == 0xc1300808; let a97 = !h97 && a98; let b97 = if h97 { a98 } else { b98 };
    let h96 = w & 0xfff09078 == 0xc1909008; let a96 = !h96 && a97; let b96 = if h96 { a97 } else { b97 };
    let h95 = w & 0xffe39c7c == 0xc1a10808; let a95 = !h95 && a96; let b95 = if h95 { a96 } else { b96 };
    let h94 = w & 0xfff09c1c == 0xc1200808; let a94 = !h94 && a95; let b94 = if h94 { a95 } else { b95 };
    let h93 = w & 0xfff09038 == 0xc1901008; let a93 = !h93 && a94; let b93 = if h93 { a94 } else { b94 };
    let h92 = w & 0xffe19c3c == 0xc1a00808; let a92 = !h92 && a93; let b92 = if h92 { a93 } else { b93 };
    let h91 = w & 0xfff09c18 == 0xc1200c08; let a91 = !h91 && a92; let b91 = if h91 { a92 } else { b92 };
    let h90 = w & 0xfff01018 == 0xc1801008; let a90 = !h90 && a91; let b90 = if h90 { a91 } else { b91 };
    let h89 = w & 0xfff09c18 == 0xc1301808; let a89 = !h89 && a90; let b89 = if h89 { a90 } else { b90 };
    let h88 = w & 0xfff09078 == 0xc1508010; let a88 = !h88 && a89; let b88 = if h88 { a89 } else { b89 };
    let h87 = w & 0xffe39c78 == 0xc1a11808; let a87 = !h87 && a88; let b87 = if h87 { a88 } else { b88 };
    let h86 = w & 0xfff09c18 == 0xc1201808; let a86 = !h86 && a87; let b86 = if h86 { a87 } else { b87 };
    let h85 = w & 0xfff09038 == 0xc1500010; let a85 = !h85 && a86; let b85 = if h85 { a86 } else { b86 };
    let h84 = w & 0xffe19c38 == 0xc1a01808; let a84 = !h84 && a85; let b84 = if h84 { a85 } else { b85 };
    let h83 = w & 0xfff09c18 == 0xc1301c08; let a83 = !h83 && a84; let b83 = if h83 { a84 } else { b84 };
    let h82 = w & 0xfff09070 == 0xc1109010; let a82 = !h82 && a83; let b82 = if h82 { a83 } else { b83 };
    let h81 = w & 0xffe39c78 == 0xc1a11018; let a81 = !h81 && a82; let b81 = if h81 { a82 } else { b82 };
    let h80 = w & 0xfff09c18 == 0xc1201c08; let a80 = !h80 && a81; let b80 = if h80 { a81 } else { b81 };
    let h79 = w & 0xfff09030 == 0xc1101010; let a79 = !h79 && a80; let b79 = if h79 { a80 } else { b80 };
    let h78 = w & 0xffe19c38 == 0xc1a01018; let a78 = !h78 && a79; let b78 = if h78 { a79 } else { b79 };
    let h77 = w & 0xfff09c18 == 0xc1701808; let a77 = !h77 && a78; let b77 = if h77 { a78 } else { b78 };
    let h76 = w & 0xfff09878 == 0xc1d08010; let a76 = !h76 && a77; let b76 = if h76 { a77 } else { b77 };
    let h75 = w & 0xffe39c78 == 0xc1e11808; let a75 = !h75 && a76; let b75 = if h75 { a76 } else { b76 };
    let h74 = w & 0xfff09c18 == 0xc1601808; let a74 = !h74 && a75; let b74 = if h74 { a75 } else { b75 };
    let h73 = w & 0xfff09838 == 0xc1d00010; let a73 = !h73 && a74; let b73 = if h73 { a74 } else { b74 };
    let h72 = w & 0xffe19c38 == 0xc1e01808; let a72 = !h72 && a73; let b72 = if h72 { a73 } else { b73 };
    let h71 = w & 0xfff09c1e == 0xc1300002; let a71 = !h71 && a72; let b71 = if h71 { a72 } else { b72 };
    let h70 = w & 0xfff09078 == 0xc1108040; let a70 = !h70 && a71; let b70 = if h70 { a71 } else { b71 };
    let h69 = w & 0xffe39c7e == 0xc1a10020; let a69 = !h69 && a70; let b69 = if h69 { a70 } else { b70 };
    let h68 = w & 0xfff09c1e == 0xc1200002; let a68 = !h68 && a69; let b68 = if h68 { a69 } else { b69 };
    let h67 = w & 0xfff09038 == 0xc1900020; let a67 = !h67 && a68; let b67 = if h67 { a68 } else { b68 };
    let h66 = w & 0xffe19c3e == 0xc1a00020; let a66 = !h66 && a67; let b66 = if h66 { a67 } else { b67 };
    let h65 = w & 0xfff09c1c == 0xc1300400; let a65 = !h65 && a66; let b65 = if h65 { a66 } else { b66 };
    let h64 = w & 0xfff0001c == 0xc1400000; let a64 = !h64 && a65; let b64 = if h64 { a65 } else { b65 };
    let h63 = w & 0xfff09c1c == 0xc1300800; let a63 = !h63 && a64; let b63 = if h63 { a64 } else { b64 };
    let h62 = w & 0xfff09078 == 0xc1909000; let a62 = !h62 && a63; let b62 = if h62 { a63 } else { b63 };
    let h61 = w & 0xffe39c7c == 0xc1a10800; let a61 = !h61 && a62; let b61 = if h61 { a62 } else { b62 };
    let h60 = w & 0xfff09c1c == 0xc1200800; let a60 = !h60 && a61; let b60 = if h60 { a61 } else { b61 };
    let h59 = w & 0xfff09038 == 0xc1901000; let a59 = !h59 && a60; let b59 = if h59 { a60 } else { b60 };
    let h58 = w & 0xffe19c3c == 0xc1a00800; let a58 = !h58 && a59; let b58 = if h58 { a59 } else { b59 };
    let h57 = w & 0xfff09c18 == 0xc1200c00; let a57 = !h57 && a58; let b57 = if h57 { a58 } else { b58 };
    let h56 = w & 0xfff01018 == 0xc1801000; let a56 = !h56 && a57; let b56 = if h56 { a57 } else { b57 };
    let h55 = w & 0xfff09c1c == 0xc1300804; let a55 = !h55 && a56; let b55 = if h55 { a56 } else { b56 };
    let h54 = w & 0xfff09070 == 0xc1909020; let a54 = !h54 && a55; let b54 = if h54 { a55 } else { b55 };
    let h53 = w & 0xffe39c7c == 0xc1a10820; let a53 = !h53 && a54; let b53 = if h53 { a54 } else { b54 };
    let h52 = w & 0xfff09c1c == 0xc1200804; let a52 = !h52 && a53; let b52 = if h52 { a53 } else { b53 };
    let h51 = w & 0xfff09030 == 0xc1901030; let a51 = !h51 && a52; let b51 = if h51 { a52 } else { b52 };
    let h50 = w & 0xffe19c3c == 0xc1a00820; let a50 = !h50 && a51; let b50 = if h50 { a51 } else { b51 };
    let h49 = w & 0xfff09c18 == 0xc1300c00; let a49 = !h49 && a50; let b49 = if h49 { a50 } else { b50 };
    let h48 = w & 0xfff01010 == 0xc1c00000; let a48 = !h48 && a49; let b48 = if h48 { a49 } else { b49 };
    let h47 = w & 0xfff09c18 == 0xc1301800; let a47 = !h47 && a48; let b47 = if h47 { a48 } else { b48 };
    let h46 = w & 0xfff09078 == 0xc1508000; let a46 = !h46 && a47; let b46 = if h46 { a47 } else { b47 };
    let h45 = w & 0xffe39c78 == 0xc1a11800; let a45 = !h45 && a46; let b45 = if h45 { a46 } else { b46 };
    let h44 = w & 0xfff09c18 == 0xc1201800; let a44 = !h44 && a45; let b44 = if h44 { a45 } else { b45 };
    let h43 = w & 0xfff09038 == 0xc1500000; let a43 = !h43 && a44; let b43 = if h43 { a44 } else { b44 };
    let h42 = w & 0xffe19c38 == 0xc1a01800; let a42 = !h42 && a43; let b42 = if h42 { a43 } else { b43 };
    let h41 = w & 0xfff09c18 == 0xc1301c00; let a41 = !h41 && a42; let b41 = if h41 { a42 } else { b42 };
    let h40 = w & 0xfff09070 == 0xc1109000; let a40 = !h40 && a41; let b40 = if h40 { a41 } else { b41 };
    let h39 = w & 0xffe39c78 == 0xc1a11008; let a39 = !h39 && a40; let b39 = if h39 { a40 } else { b40 };
    let h38 = w & 0xfff09c18 == 0xc1201c00; let a38 = !h38 && a39; let b38 = if h38 { a39 } else { b39 };
    let h37 = w & 0xfff09030 == 0xc1101000; let a37 = !h37 && a38; let b37 = if h37 { a38 } else { b38 };
    let h36 = w & 0xffe19c38 == 0xc1a01008; let a36 = !h36 && a37; let b36 = if h36 { a37 } else { b37 };
    let h35 = w & 0xfff09c18 == 0xc1701800; let a35 = !h35 && a36; let b35 = if h35 { a36 } else { b36 };
    let h34 = w & 0xfff09878 == 0xc1d08000; let a34 = !h34 && a35; let b34 = if h34 { a35 } else { b35 };
    let h33 = w & 0xffe39c78 == 0xc1e11800; let a33 = !h33 && a34; let b33 = if h33 { a34 } else { b34 };
    let h32 = w & 0xfff09c18 == 0xc1601800; let a32 = !h32 && a33; let b32 = if h32 { a33 } else { b33 };
    let h31 = w & 0xfff09838 == 0xc1d00000; let a31 = !h31 && a32; let b31 = if h31 { a32 } else { b32 };
    let h30 = w & 0xffe19c38 == 0xc1e01800; let a30 = !h30 && a31; let b30 = if h30 { a31 } else { b31 };
    let h29 = w & 0xffe0e00c == 0x81400000; let a29 = !h29 && a30; let b29 = if h29 { a30 } else { b30 };
    let h28 = w & 0xffe0e00e == 0x81600008; let a28 = !h28 && a29; let b28 = if h28 { a29 } else { b29 };
    let h27 = w & 0xfff09c1c == 0xc1300818; let a27 = !h27 && a28; let b27 = if h27 { a28 } else { b28 };
    let h26 = w & 0xfff09078 == 0xc1909018; let a26 = !h26 && a27; let b26 = if h26 { a27 } else { b27 };
    let h25 = w & 0xffe39c7c == 0xc1a10818; let a25 = !h25 && a26; let b25 = if h25 { a26 } else { b26 };
    let h24 = w & 0xfff09c1c == 0xc1200818; let a24 = !h24 && a25; let b24 = if h24 { a25 } else { b25 };
    let h23 = w & 0xfff09038 == 0xc1901018; let a23 = !h23 && a24; let b23 = if h23 { a24 } else { b24 };
    let h22 = w & 0xffe19c3c == 0xc1a00818; let a22 = !h22 && a23; let b22 = if h22 { a23 } else { b23 };
    let h21 = w & 0xfff09c18 == 0xc1200c18; let a21 = !h21 && a22; let b21 = if h21 { a22 } else { b22 };
    let h20 = w & 0xfff01018 == 0xc1801018; let a20 = !h20 && a21; let b20 = if h20 { a21 } else { b21 };
    let h19 = w & 0xfff09c18 == 0xc1701c08; let a19 = !h19 && a20; let b19 = if h19 { a20 } else { b20 };
    let h18 = w & 0xfff09070 == 0xc1109030; let a18 = !h18 && a19; let b18 = if h18 { a19 } else { b19 };
    let h17 = w & 0xffe39c78 == 0xc1e11018; let a17 = !h17 && a18; let b17 = if h17 { a18 } else { b18 };
    let h16 = w & 0xfff09c18 == 0xc1601c08; let a16 = !h16 && a17; let b16 = if h16 { a17 } else { b17 };
    let h15 = w & 0xfff09030 == 0xc1101030; let a15 = !h15 && a16; let b15 = if h15 { a16 } else { b16 };
    let h14 = w & 0xffe19c38 == 0xc1e01018; let a14 = !h14 && a15; let b14 = if h14 { a15 } else { b15 };
    let h13 = w & 0xfff09c1c == 0xc1300810; let a13 = !h13 && a14; let b13 = if h13 { a14 } else { b14 };
    let h12 = w & 0xfff09078 == 0xc1909010; let a12 = !h12 && a13; let b12 = if h12 { a13 } else { b13 };
    let h11 = w & 0xffe39c7c == 0xc1a10810; let a11 = !h11 && a12; let b11 = if h11 { a12 } else { b12 };
    let h10 = w & 0xfff09c1c == 0xc1200810; let a10 = !h10 && a11; let b10 = if h10 { a11 } else { b11 };
    let h9 = w & 0xfff09038 == 0xc1901010; let a9 = !h9 && a10; let b9 = if h9 { a10 } else { b10 };
    let h8 = w & 0xffe19c3c == 0xc1a00810; let a8 = !h8 && a9; let b8 = if h8 { a9 } else { b9 };
    let h7 = w & 0xfff09c18 == 0xc1200c10; let a7 = !h7 && a8; let b7 = if h7 { a8 } else { b8 };
    let h6 = w & 0xfff01018 == 0xc1801010; let a6 = !h6 && a7; let b6 = if h6 { a7 } else { b7 };
    let h5 = w & 0xfff09c18 == 0xc1701c00; let a5 = !h5 && a6; let b5 = if h5 { a6 } else { b6 };
    let h4 = w & 0xfff09070 == 0xc1109020; let a4 = !h4 && a5; let b4 = if h4 { a5 } else { b5 };
    let h3 = w & 0xffe39c78 == 0xc1e11008; let a3 = !h3 && a4; let b3 = if h3 { a4 } else { b4 };
    let h2 = w & 0xfff09c18 == 0xc1601c00; let a2 = !h2 && a3; let b2 = if h2 { a3 } else { b3 };
    let h1 = w & 0xfff09030 == 0xc1101020; let a1 = !h1 && a2; let b1 = if h1 { a2 } else { b2 };
    let h0 = w & 0xffe19c38 == 0xc1e01008; let a0 = !h0 && a1; let b0 = if h0 { a1 } else { b1 };
    b0
}

proof fn lemma_literal_exclusive(w: u32)
    by (bit_vector)
    ensures
        keys_exclusive_literal(w),
{
}


proof fn lemma_keys_unfold_0(w: u32)
    ensures
        key_hit(w, 0) == (w & 0xffe19c38 == 0xc1e01008),
        none_from(w, 0) == (!key_hit(w, 0) && none_from(w, 1)),
        at_most_one_from(w, 0) == if key_hit(w, 0) { none_from(w, 1) } else { at_most_one_from(w, 1) },
        key_hit(w, 1) == (w & 0xfff09030 == 0xc1101020),
        none_from(w, 1) == (!key_hit(w, 1) && none_from(w, 2)),
        at_most_one_from(w, 1) == if key_hit(w, 1) { none_from(w, 2) } else { at_most_one_from(w, 2) },
        key_hit(w, 2) == (w & 0xfff09c18 == 0xc1601c00),
        none_from(w, 2) == (!key_hit(w, 2) && none_from(w, 3)),
        at_most_one_from(w, 2) == if key_hit(w, 2) { none_from(w, 3) } else { at_most_one_from(w, 3) },
        key_hit(w, 3) == (w & 0xffe39c78 == 0xc1e11008),
        none_from(w, 3) == (!key_hit(w, 3) && none_from(w, 4)),
        at_most_one_from(w, 3) == if key_hit(w, 3) { none_from(w, 4) } else { at_most_one_from(w, 4) },
        key_hit(w, 4) == (w & 0xfff09070 == 0xc1109020),
        none_from(w, 4) == (!key_hit(w, 4) && none_from(w, 5)),
        at_most_one_from(w, 4) == if key_hit(w, 4) { none_from(w, 5) } else { at_most_one_from(w, 5) },
        key_hit(w, 5) == (w & 0xfff09c18 == 0xc1701c00),
        none_from(w, 5) == (!key_hit(w, 5) && none_from(w, 6)),
        at_most_one_from(w, 5) == if key_hit(w, 5) { none_from(w, 6) } else { at_most_one_from(w, 6) },
        key_hit(w, 6) == (w & 0xfff01018 == 0xc1801010),
        none_from(w, 6) == (!key_hit(w, 6) && none_from(w, 7)),
        at_most_one_from(w, 6) == if key_hit(w, 6) { none_from(w, 7) } else { at_most_one_from(w, 7) },
        key_hit(w, 7) == (w & 0xfff09c18 == 0xc1200c10),
        none_from(w, 7) == (!key_hit(w, 7) && none_from(w, 8)),
        at_most_one_from(w, 7) == if key_hit(w, 7) { none_from(w, 8) } else { at_most_one_from(w, 8) },
        key_hit(w, 8) == (w & 0xffe19c3c == 0xc1a00810),
        none_from(w, 8) == (!key_hit(w, 8) && none_from(w, 9)),
        at_most_one_from(w, 8) == if key_hit(w, 8) { none_from(w, 9) } else { at_most_one_from(w, 9) },
        key_hit(w, 9) == (w & 0xfff09038 == 0xc1901010),
        none_from(w, 9) == (!key_hit(w, 9) && none_from(w, 10)),
        at_most_one_from(w, 9) == if key_hit(w, 9) { none_from(w, 10) } else { at_most_one_from(w, 10) },
        key_hit(w, 10) == (w & 0xfff09c1c == 0xc1200810),
        none_from(w, 10) == (!key_hit(w, 10) && none_from(w, 11)),
        at_most_one_from(w, 10) == if key_hit(w, 10) { none_from(w, 11) } else { at_most_one_from(w, 11) },
        key_hit(w, 11) == (w & 0xffe39c7c == 0xc1a10810),
        none_from(w, 11) == (!key_hit(w, 11) && none_from(w, 12)),
        at_most_one_from(w, 11) == if key_hit(w, 11) { none_from(w, 12) } else { at_most_one_from(w, 12) },
        key_hit(w, 12) == (w & 0xfff09078 == 0xc1909010),
        none_from(w, 12) == (!key_hit(w, 12) && none_from(w, 13)),
        at_most_one_from(w, 12) == if key_hit(w, 12) { none_from(w, 13) } else { at_most_one_from(w, 13) },
        key_hit(w, 13) == (w & 0xfff09c1c == 0xc1300810),
        none_from(w, 13) == (!key_hit(w, 13) && none_from(w, 14)),
        at_most_one_from(w, 13) == if key_hit(w, 13) { none_from(w, 14) } else { at_most_one_from(w, 14) },
        key_hit(w, 14) == (w & 0xffe19c38 == 0xc1e01018),
        none_from(w, 14) == (!key_hit(w, 14) && none_from(w, 15)),
        at_most_one_from(w, 14) == if key_hit(w, 14) { none_from(w, 15) } else { at_most_one_from(w, 15) },
        key_hit(w, 15) == (w & 0xfff09030 == 0xc1101030),
        none_from(w, 15) == (!key_hit(w, 15) && none_from(w, 16)),
        at_most_one_from(w, 15) == if key_hit(w, 15) { none_from(w, 16) } else { at_most_one_from(w, 16) },
        key_hit(w, 16) == (w & 0xfff09c18 == 0xc1601c08),
        none_from(w, 16) == (!key_hit(w, 16) && none_from(w, 17)),
        at_most_one_from(w, 16) == if key_hit(w, 16) { none_from(w, 17) } else { at_most_one_from(w, 17) },
        key_hit(w, 17) == (w & 0xffe39c78 == 0xc1e11018),
        none_from(w, 17) == (!key_hit(w, 17) && none_from(w, 18)),
        at_most_one_from(w, 17) == if key_hit(w, 17) { none_from(w, 18) } else { at_most_one_from(w, 18) },
        key_hit(w, 18) == (w & 0xfff09070 == 0xc1109030),
        none_from(w, 18) == (!key_hit(w, 18) && none_from(w, 19)),
        at_most_one_from(w, 18) == if key_hit(w, 18) { none_from(w, 19) } else { at_most_one_from(w, 19) },
        key_hit(w, 19) == (w & 0xfff09c18 == 0xc1701c08),
        none_from(w, 19) == (!key_hit(w, 19) && none_from(w, 20)),
        at_most_one_from(w, 19) == if key_hit(w, 19) { none_from(w, 20) } else { at_most_one_from(w, 20) },
        key_hit(w, 20) == (w & 0xfff01018 == 0xc1801018),
        none_from(w, 20) == (!key_hit(w, 20) && none_from(w, 21)),
        at_most_one_from(w, 20) == if key_hit(w, 20) { none_from(w, 21) } else { at_most_one_from(w, 21) },
        key_hit(w, 21) == (w & 0xfff09c18 == 0xc1200c18),
        none_from(w, 21) == (!key_hit(w, 21) && none_from(w, 22)),
        at_most_one_from(w, 21) == if key_hit(w, 21) { none_from(w, 22) } else { at_most_one_from(w, 22) },
        key_hit(w, 22) == (w & 0xffe19c3c == 0xc1a00818),
        none_from(w, 22) == (!key_hit(w, 22) && none_from(w, 23)),
        at_most_one_from(w, 22) == if key_hit(w, 22) { none_from(w, 23) } else { at_most_one_from(w, 23) },
        key_hit(w, 23) == (w & 0xfff09038 == 0xc1901018),
        none_from(w, 23) == (!key_hit(w, 23) && none_from(w, 24)),
        at_most_one_from(w, 23) == if key_hit(w, 23) { none_from(w, 24) } else { at_most_one_from(w, 24) },
{
    reveal(key_hit);
    reveal(none_from);
    reveal(at_most_one_from);
}

proof fn lemma_keys_unfold_1(w: u32)
    ensures
        key_hit(w, 24) == (w & 0xfff09c1c == 0xc1200818),
        none_from(w, 24) == (!key_hit(w, 24) && none_from(w, 25)),
        at_most_one_from(w, 24) == if key_hit(w, 24) { none_from(w, 25) } else { at_most_one_from(w, 25) },
        key_hit(w, 25) == (w & 0xffe39c7c == 0xc1a10818),
        none_from(w, 25) == (!key_hit(w, 25) && none_from(w, 26)),
        at_most_one_from(w, 25) == if key_hit(w, 25) { none_from(w, 26) } else { at_most_one_from(w, 26) },
        key_hit(w, 26) == (w & 0xfff09078 == 0xc1909018),
        none_from(w, 26) == (!key_hit(w, 26) && none_from(w, 27)),
        at_most_one_from(w, 26) == if key_hit(w, 26) { none_from(w, 27) } else { at_most_one_from(w, 27) },
        key_hit(w, 27) == (w & 0xfff09c1c == 0xc1300818),
        none_from(w, 27) == (!key_hit(w, 27) && none_from(w, 28)),
        at_most_one_from(w, 27) == if key_hit(w, 27) { none_from(w, 28) } else { at_most_one_from(w, 28) },
        key_hit(w, 28) == (w & 0xffe0e00e == 0x81600008),
        none_from(w, 28) == (!key_hit(w, 28) && none_from(w, 29)),
        at_most_one_from(w, 28) == if key_hit(w, 28) { none_from(w, 29) } else { at_most_one_from(w, 29) },
        key_hit(w, 29) == (w & 0xffe0e00c == 0x81400000),
        none_from(w, 29) == (!key_hit(w, 29) && none_from(w, 30)),
        at_most_one_from(w, 29) == if key_hit(w, 29) { none_from(w, 30) } else { at_most_one_from(w, 30) },
        key_hit(w, 30) == (w & 0xffe19c38 == 0xc1e01800),
        none_from(w, 30) == (!key_hit(w, 30) && none_from(w, 31)),
        at_most_one_from(w, 30) == if key_hit(w, 30) { none_from(w, 31) } else { at_most_one_from(w, 31) },
        key_hit(w, 31) == (w & 0xfff09838 == 0xc1d00000),
        none_from(w, 31) == (!key_hit(w, 31) && none_from(w, 32)),
        at_most_one_from(w, 31) == if key_hit(w, 31) { none_from(w, 32) } else { at_most_one_from(w, 32) },
        key_hit(w, 32) == (w & 0xfff09c18 == 0xc1601800),
        none_from(w, 32) == (!key_hit(w, 32) && none_from(w, 33)),
        at_most_one_from(w, 32) == if key_hit(w, 32) { none_from(w, 33) } else { at_most_one_from(w, 33) },
        key_hit(w, 33) == (w & 0xffe39c78 == 0xc1e11800),
        none_from(w, 33) == (!key_hit(w, 33) && none_from(w, 34)),
        at_most_one_from(w, 33) == if key_hit(w, 33) { none_from(w, 34) } else { at_most_one_from(w, 34) },
        key_hit(w, 34) == (w & 0xfff09878 == 0xc1d08000),
        none_from(w, 34) == (!key_hit(w, 34) && none_from(w, 35)),
        at_most_one_from(w, 34) == if key_hit(w, 34) { none_from(w, 35) } else { at_most_one_from(w, 35) },
        key_hit(w, 35) == (w & 0xfff09c18 == 0xc1701800),
        none_from(w, 35) == (!key_hit(w, 35) && none_from(w, 36)),
        at_most_one_from(w, 35) == if key_hit(w, 35) { none_from(w, 36) } else { at_most_one_from(w, 36) },
        key_hit(w, 36) == (w & 0xffe19c38 == 0xc1a01008),
        none_from(w, 36) == (!key_hit(w, 36) && none_from(w, 37)),
        at_most_one_from(w, 36) == if key_hit(w, 36) { none_from(w, 37) } else { at_most_one_from(w, 37) },
        key_hit(w, 37) == (w & 0xfff09030 == 0xc1101000),
        none_from(w, 37) == (!key_hit(w, 37) && none_from(w, 38)),
        at_most_one_from(w, 37) == if key_hit(w, 37) { none_from(w, 38) } else { at_most_one_from(w, 38) },
        key_hit(w, 38) == (w & 0xfff09c18 == 0xc1201c00),
        none_from(w, 38) == (!key_hit(w, 38) && none_from(w, 39)),
        at_most_one_from(w, 38) == if key_hit(w, 38) { none_from(w, 39) } else { at_most_one_from(w, 39) },
        key_hit(w, 39) == (w & 0xffe39c78 == 0xc1a11008),
        none_from(w, 39) == (!key_hit(w, 39) && none_from(w, 40)),
        at_most_one_from(w, 39) == if key_hit(w, 39) { none_from(w, 40) } else { at_most_one_from(w, 40) },
        key_hit(w, 40) == (w & 0xfff09070 == 0xc1109000),
        none_from(w, 40) == (!key_hit(w, 40) && none_from(w, 41)),
        at_most_one_from(w, 40) == if key_hit(w, 40) { none_from(w, 41) } else { at_most_one_from(w, 41) },
        key_hit(w, 41) == (w & 0xfff09c18 == 0xc1301c00),
        none_from(w, 41) == (!key_hit(w, 41) && none_from(w, 42)),
        at_most_one_from(w, 41) == if key_hit(w, 41) { none_from(w, 42) } else { at_most_one_from(w, 42) },
        key_hit(w, 42) == (w & 0xffe19c38 == 0xc1a01800),
        none_from(w, 42) == (!key_hit(w, 42) && none_from(w, 43)),
        at_most_one_from(w, 42) == if key_hit(w, 42) { none_from(w, 43) } else { at_most_one_from(w, 43) },
        key_hit(w, 43) == (w & 0xfff09038 == 0xc1500000),
        none_from(w, 43) == (!key_hit(w, 43) && none_from(w, 44)),
        at_most_one_from(w, 43) == if key_hit(w, 43) { none_from(w, 44) } else { at_most_one_from(w, 44) },
        key_hit(w, 44) == (w & 0xfff09c18 == 0xc1201800),
        none_from(w, 44) == (!key_hit(w, 44) && none_from(w, 45)),
        at_most_one_from(w, 44) == if key_hit(w, 44) { none_from(w, 45) } else { at_most_one_from(w, 45) },
        key_hit(w, 45) == (w & 0xffe39c78 == 0xc1a11800),
        none_from(w, 45) == (!key_hit(w, 45) && none_from(w, 46)),
        at_most_one_from(w, 45) == if key_hit(w, 45) { none_from(w, 46) } else { at_most_one_from(w, 46) },
        key_hit(w, 46) == (w & 0xfff09078 == 0xc1508000),
        none_from(w, 46) == (!key_hit(w, 46) && none_from(w, 47)),
        at_most_one_from(w, 46) == if key_hit(w, 46) { none_from(w, 47) } else { at_most_one_from(w, 47) },
        key_hit(w, 47) == (w & 0xfff09c18 == 0xc1301800),
        none_from(w, 47) == (!key_hit(w, 47) && none_from(w, 48)),
        at_most_one_from(w, 47) == if key_hit(w, 47) { none_from(w, 48) } else { at_most_one_from(w, 48) },
{
    reveal(key_hit);
    reveal(none_from);
    reveal(at_most_one_from);
}

proof fn lemma_keys_unfold_2(w: u32)
    ensures
        key_hit(w, 48) == (w & 0xfff01010 == 0xc1c00000),
        none_from(w, 48) == (!key_hit(w, 48) && none_from(w, 49)),
        at_most_one_from(w, 48) == if key_hit(w, 48) { none_from(w, 49) } else { at_most_one_from(w, 49) },
        key_hit(w, 49) == (w & 0xfff09c18 == 0xc1300c00),
        none_from(w, 49) == (!key_hit(w, 49) && none_from(w, 50)),
        at_most_one_from(w, 49) == if key_hit(w, 49) { none_from(w, 50) } else { at_most_one_from(w, 50) },
        key_hit(w, 50) == (w & 0xffe19c3c == 0xc1a00820),
        none_from(w, 50) == (!key_hit(w, 50) && none_from(w, 51)),
        at_most_one_from(w, 50) == if key_hit(w, 50) { none_from(w, 51) } else { at_most_one_from(w, 51) },
        key_hit(w, 51) == (w & 0xfff09030 == 0xc1901030),
        none_from(w, 51) == (!key_hit(w, 51) && none_from(w, 52)),
        at_most_one_from(w, 51) == if key_hit(w, 51) { none_from(w, 52) } else { at_most_one_from(w, 52) },
        key_hit(w, 52) == (w & 0xfff09c1c == 0xc1200804),
        none_from(w, 52) == (!key_hit(w, 52) && none_from(w, 53)),
        at_most_one_from(w, 52) == if key_hit(w, 52) { none_from(w, 53) } else { at_most_one_from(w, 53) },
        key_hit(w, 53) == (w & 0xffe39c7c == 0xc1a10820),
        none_from(w, 53) == (!key_hit(w, 53) && none_from(w, 54)),
        at_most_one_from(w, 53) == if key_hit(w, 53) { none_from(w, 54) } else { at_most_one_from(w, 54) },
        key_hit(w, 54) == (w & 0xfff09070 == 0xc1909020),
        none_from(w, 54) == (!key_hit(w, 54) && none_from(w, 55)),
        at_most_one_from(w, 54) == if key_hit(w, 54) { none_from(w, 55) } else { at_most_one_from(w, 55) },
        key_hit(w, 55) == (w & 0xfff09c1c == 0xc1300804),
        none_from(w, 55) == (!key_hit(w, 55) && none_from(w, 56)),
        at_most_one_from(w, 55) == if key_hit(w, 55) { none_from(w, 56) } else { at_most_one_from(w, 56) },
        key_hit(w, 56) == (w & 0xfff01018 == 0xc1801000),
        none_from(w, 56) == (!key_hit(w, 56) && none_from(w, 57)),
        at_most_one_from(w, 56) == if key_hit(w, 56) { none_from(w, 57) } else { at_most_one_from(w, 57) },
        key_hit(w, 57) == (w & 0xfff09c18 == 0xc1200c00),
        none_from(w, 57) == (!key_hit(w, 57) && none_from(w, 58)),
        at_most_one_from(w, 57) == if key_hit(w, 57) { none_from(w, 58) } else { at_most_one_from(w, 58) },
        key_hit(w, 58) == (w & 0xffe19c3c == 0xc1a00800),
        none_from(w, 58) == (!key_hit(w, 58) && none_from(w, 59)),
        at_most_one_from(w, 58) == if key_hit(w, 58) { none_from(w, 59) } else { at_most_one_from(w, 59) },
        key_hit(w, 59) == (w & 0xfff09038 == 0xc1901000),
        none_from(w, 59) == (!key_hit(w, 59) && none_from(w, 60)),
        at_most_one_from(w, 59) == if key_hit(w, 59) { none_from(w, 60) } else { at_most_one_from(w, 60) },
        key_hit(w, 60) == (w & 0xfff09c1c == 0xc1200800),
        none_from(w, 60) == (!key_hit(w, 60) && none_from(w, 61)),
        at_most_one_from(w, 60) == if key_hit(w, 60) { none_from(w, 61) } else { at_most_one_from(w, 61) },
        key_hit(w, 61) == (w & 0xffe39c7c == 0xc1a10800),
        none_from(w, 61) == (!key_hit(w, 61) && none_from(w, 62)),
        at_most_one_from(w, 61) == if key_hit(w, 61) { none_from(w, 62) } else { at_most_one_from(w, 62) },
        key_hit(w, 62) == (w & 0xfff09078 == 0xc1909000),
        none_from(w, 62) == (!key_hit(w, 62) && none_from(w, 63)),
        at_most_one_from(w, 62) == if key_hit(w, 62) { none_from(w, 63) } else { at_most_one_from(w, 63) },
        key_hit(w, 63) == (w & 0xfff09c1c == 0xc1300800),
        none_from(w, 63) == (!key_hit(w, 63) && none_from(w, 64)),
        at_most_one_from(w, 63) == if key_hit(w, 63) { none_from(w, 64) } else { at_most_one_from(w, 64) },
        key_hit(w, 64) == (w & 0xfff0001c == 0xc1400000),
        none_from(w, 64) == (!key_hit(w, 64) && none_from(w, 65)),
        at_most_one_from(w, 64) == if key_hit(w, 64) { none_from(w, 65) } else { at_most_one_from(w, 65) },
        key_hit(w, 65) == (w & 0xfff09c1c == 0xc1300400),
        none_from(w, 65) == (!key_hit(w, 65) && none_from(w, 66)),
        at_most_one_from(w, 65) == if key_hit(w, 65) { none_from(w, 66) } else { at_most_one_from(w, 66) },
        key_hit(w, 66) == (w & 0xffe19c3e == 0xc1a00020),
        none_from(w, 66) == (!key_hit(w, 66) && none_from(w, 67)),
        at_most_one_from(w, 66) == if key_hit(w, 66) { none_from(w, 67) } else { at_most_one_from(w, 67) },
        key_hit(w, 67) == (w & 0xfff09038 == 0xc1900020),
        none_from(w, 67) == (!key_hit(w, 67) && none_from(w, 68)),
        at_most_one_from(w, 67) == if key_hit(w, 67) { none_from(w, 68) } else { at_most_one_from(w, 68) },
        key_hit(w, 68) == (w & 0xfff09c1e == 0xc1200002),
        none_from(w, 68) == (!key_hit(w, 68) && none_from(w, 69)),
        at_most_one_from(w, 68) == if key_hit(w, 68) { none_from(w, 69) } else { at_most_one_from(w, 69) },
        key_hit(w, 69) == (w & 0xffe39c7e == 0xc1a10020),
        none_from(w, 69) == (!key_hit(w, 69) && none_from(w, 70)),
        at_most_one_from(w, 69) == if key_hit(w, 69) { none_from(w, 70) } else { at_most_one_from(w, 70) },
        key_hit(w, 70) == (w & 0xfff09078 == 0xc1108040),
        none_from(w, 70) == (!key_hit(w, 70) && none_from(w, 71)),
        at_most_one_from(w, 70) == if key_hit(w, 70) { none_from(w, 71) } else { at_most_one_from(w, 71) },
        key_hit(w, 71) == (w & 0xfff09c1e == 0xc1300002),
        none_from(w, 71) == (!key_hit(w, 71) && none_from(w, 72)),
        at_most_one_from(w, 71) == if key_hit(w, 71) { none_from(w, 72) } else { at_most_one_from(w, 72) },
{
    reveal(key_hit);
    reveal(none_from);
    reveal(at_most_one_from);
}

proof fn lemma_keys_unfold_3(w: u32)
    ensures
        key_hit(w, 72) == (w & 0xffe19c38 == 0xc1e01808),
        none_from(w, 72) == (!key_hit(w, 72) && none_from(w, 73)),
        at_most_one_from(w, 72) == if key_hit(w, 72) { none_from(w, 73) } else { at_most_one_from(w, 73) },
        key_hit(w, 73) == (w & 0xfff09838 == 0xc1d00010),
        none_from(w, 73) == (!key_hit(w, 73) && none_from(w, 74)),
        at_most_one_from(w, 73) == if key_hit(w, 73) { none_from(w, 74) } else { at_most_one_from(w, 74) },
        key_hit(w, 74) == (w & 0xfff09c18 == 0xc1601808),
        none_from(w, 74) == (!key_hit(w, 74) && none_from(w, 75)),
        at_most_one_from(w, 74) == if key_hit(w, 74) { none_from(w, 75) } else { at_most_one_from(w, 75) },
        key_hit(w, 75) == (w & 0xffe39c78 == 0xc1e11808),
        none_from(w, 75) == (!key_hit(w, 75) && none_from(w, 76)),
        at_most_one_from(w, 75) == if key_hit(w, 75) { none_from(w, 76) } else { at_most_one_from(w, 76) },
        key_hit(w, 76) == (w & 0xfff09878 == 0xc1d08010),
        none_from(w, 76) == (!key_hit(w, 76) && none_from(w, 77)),
        at_most_one_from(w, 76) == if key_hit(w, 76) { none_from(w, 77) } else { at_most_one_from(w, 77) },
        key_hit(w, 77) == (w & 0xfff09c18 == 0xc1701808),
        none_from(w, 77) == (!key_hit(w, 77) && none_from(w, 78)),
        at_most_one_from(w, 77) == if key_hit(w, 77) { none_from(w, 78) } else { at_most_one_from(w, 78) },
        key_hit(w, 78) == (w & 0xffe19c38 == 0xc1a01018),
        none_from(w, 78) == (!key_hit(w, 78) && none_from(w, 79)),
        at_most_one_from(w, 78) == if key_hit(w, 78) { none_from(w, 79) } else { at_most_one_from(w, 79) },
        key_hit(w, 79) == (w & 0xfff09030 == 0xc1101010),
        none_from(w, 79) == (!key_hit(w, 79) && none_from(w, 80)),
        at_most_one_from(w, 79) == if key_hit(w, 79) { none_from(w, 80) } else { at_most_one_from(w, 80) },
        key_hit(w, 80) == (w & 0xfff09c18 == 0xc1201c08),
        none_from(w, 80) == (!key_hit(w, 80) && none_from(w, 81)),
        at_most_one_from(w, 80) == if key_hit(w, 80) { none_from(w, 81) } else { at_most_one_from(w, 81) },
        key_hit(w, 81) == (w & 0xffe39c78 == 0xc1a11018),
        none_from(w, 81) == (!key_hit(w, 81) && none_from(w, 82)),
        at_most_one_from(w, 81) == if key_hit(w, 81) { none_from(w, 82) } else { at_most_one_from(w, 82) },
        key_hit(w, 82) == (w & 0xfff09070 == 0xc1109010),
        none_from(w, 82) == (!key_hit(w, 82) && none_from(w, 83)),
        at_most_one_from(w, 82) == if key_hit(w, 82) { none_from(w, 83) } else { at_most_one_from(w, 83) },
        key_hit(w, 83) == (w & 0xfff09c18 == 0xc1301c08),
        none_from(w, 83) == (!key_hit(w, 83) && none_from(w, 84)),
        at_most_one_from(w, 83) == if key_hit(w, 83) { none_from(w, 84) } else { at_most_one_from(w, 84) },
        key_hit(w, 84) == (w & 0xffe19c38 == 0xc1a01808),
        none_from(w, 84) == (!key_hit(w, 84) && none_from(w, 85)),
        at_most_one_from(w, 84) == if key_hit(w, 84) { none_from(w, 85) } else { at_most_one_from(w, 85) },
        key_hit(w, 85) == (w & 0xfff09038 == 0xc1500010),
        none_from(w, 85) == (!key_hit(w, 85) && none_from(w, 86)),
        at_most_one_from(w, 85) == if key_hit(w, 85) { none_from(w, 86) } else { at_most_one_from(w, 86) },
        key_hit(w, 86) == (w & 0xfff09c18 == 0xc1201808),
        none_from(w, 86) == (!key_hit(w, 86) && none_from(w, 87)),
        at_most_one_from(w, 86) == if key_hit(w, 86) { none_from(w, 87) } else { at_most_one_from(w, 87) },
        key_hit(w, 87) == (w & 0xffe39c78 == 0xc1a11808),
        none_from(w, 87) == (!key_hit(w, 87) && none_from(w, 88)),
        at_most_one_from(w, 87) == if key_hit(w, 87) { none_from(w, 88) } else { at_most_one_from(w, 88) },
        key_hit(w, 88) == (w & 0xfff09078 == 0xc1508010),
        none_from(w, 88) == (!key_hit(w, 88) && none_from(w, 89)),
        at_most_one_from(w, 88) == if key_hit(w, 88) { none_from(w, 89) } else { at_most_one_from(w, 89) },
        key_hit(w, 89) == (w & 0xfff09c18 == 0xc1301808),
        none_from(w, 89) == (!key_hit(w, 89) && none_from(w, 90)),
        at_most_one_from(w, 89) == if key_hit(w, 89) { none_from(w, 90) } else { at_most_one_from(w, 90) },
        key_hit(w, 90) == (w & 0xfff01018 == 0xc1801008),
        none_from(w, 90) == (!key_hit(w, 90) && none_from(w, 91)),
        at_most_one_from(w, 90) == if key_hit(w, 90) { none_from(w, 91) } else { at_most_one_from(w, 91) },
        key_hit(w, 91) == (w & 0xfff09c18 == 0xc1200c08),
        none_from(w, 91) == (!key_hit(w, 91) && none_from(w, 92)),
        at_most_one_from(w, 91) == if key_hit(w, 91) { none_from(w, 92) } else { at_most_one_from(w, 92) },
        key_hit(w, 92) == (w & 0xffe19c3c == 0xc1a00808),
        none_from(w, 92) == (!key_hit(w, 92) && none_from(w, 93)),
        at_most_one_from(w, 92) == if key_hit(w, 92) { none_from(w, 93) } else { at_most_one_from(w, 93) },
        key_hit(w, 93) == (w & 0xfff09038 == 0xc1901008),
        none_from(w, 93) == (!key_hit(w, 93) && none_from(w, 94)),
        at_most_one_from(w, 93) == if key_hit(w, 93) { none_from(w, 94) } else { at_most_one_from(w, 94) },
        key_hit(w, 94) == (w & 0xfff09c1c == 0xc1200808),
        none_from(w, 94) == (!key_hit(w, 94) && none_from(w, 95)),
        at_most_one_from(w, 94) == if key_hit(w, 94) { none_from(w, 95) } else { at_most_one_from(w, 95) },
        key_hit(w, 95) == (w & 0xffe39c7c == 0xc1a10808),
        none_from(w, 95) == (!key_hit(w, 95) && none_from(w, 96)),
        at_most_one_from(w, 95) == if key_hit(w, 95) { none_from(w, 96) } else { at_most_one_from(w, 96) },
{
    reveal(key_hit);
    reveal(none_from);
    reveal(at_most_one_from);
}

proof fn lemma_keys_unfold_4(w: u32)
    ensures
        key_hit(w, 96) == (w & 0xfff09078 == 0xc1909008),
        none_from(w, 96) == (!key_hit(w, 96) && none_from(w, 97)),
        at_most_one_from(w, 96) == if key_hit(w, 96) { none_from(w, 97) } else { at_most_one_from(w, 97) },
        key_hit(w, 97) == (w & 0xfff09c1c == 0xc1300808),
        none_from(w, 97) == (!key_hit(w, 97) && none_from(w, 98)),
        at_most_one_from(w, 97) == if key_hit(w, 97) { none_from(w, 98) } else { at_most_one_from(w, 98) },
        key_hit(w, 98) == (w & 0xffe0e00e == 0x80600008),
        none_from(w, 98) == (!key_hit(w, 98) && none_from(w, 99)),
        at_most_one_from(w, 98) == if key_hit(w, 98) { none_from(w, 99) } else { at_most_one_from(w, 99) },
        key_hit(w, 99) == (w & 0xffe0e00e == 0x81400008),
        none_from(w, 99) == (!key_hit(w, 99) && none_from(w, 100)),
        at_most_one_from(w, 99) == if key_hit(w, 99) { none_from(w, 100) } else { at_most_one_from(w, 100) },
        key_hit(w, 100) == (w & 0xffe0e00c == 0x80600000),
        none_from(w, 100) == (!key_hit(w, 100) && none_from(w, 101)),
        at_most_one_from(w, 100) == if key_hit(w, 100) { none_from(w, 101) } else { at_most_one_from(w, 101) },
        key_hit(w, 101) == (w & 0xffe0e00c == 0x81600000),
        none_from(w, 101) == (!key_hit(w, 101) && none_from(w, 102)),
        at_most_one_from(w, 101) == if key_hit(w, 101) { none_from(w, 102) } else { at_most_one_from(w, 102) },
        key_hit(w, 102) == (w & 0xffe0e00c == 0x80400000),
        none_from(w, 102) == (!key_hit(w, 102) && none_from(w, 103)),
        at_most_one_from(w, 102) == if key_hit(w, 102) { none_from(w, 103) } else { at_most_one_from(w, 103) },
        key_hit(w, 103) == (w & 0xfff01018 == 0xc1c01000),
        none_from(w, 103) == (!key_hit(w, 103) && none_from(w, 104)),
        at_most_one_from(w, 103) == if key_hit(w, 103) { none_from(w, 104) } else { at_most_one_from(w, 104) },
        key_hit(w, 104) == (w & 0xfff09c18 == 0xc1600c00),
        none_from(w, 104) == (!key_hit(w, 104) && none_from(w, 105)),
        at_most_one_from(w, 104) == if key_hit(w, 104) { none_from(w, 105) } else { at_most_one_from(w, 105) },
        key_hit(w, 105) == (w & 0xffe19c3c == 0xc1e00800),
        none_from(w, 105) == (!key_hit(w, 105) && none_from(w, 106)),
        at_most_one_from(w, 105) == if key_hit(w, 105) { none_from(w, 106) } else { at_most_one_from(w, 106) },
        key_hit(w, 106) == (w & 0xfff09038 == 0xc1d01000),
        none_from(w, 106) == (!key_hit(w, 106) && none_from(w, 107)),
        at_most_one_from(w, 106) == if key_hit(w, 106) { none_from(w, 107) } else { at_most_one_from(w, 107) },
        key_hit(w, 107) == (w & 0xfff09c1c == 0xc1600800),
        none_from(w, 107) == (!key_hit(w, 107) && none_from(w, 108)),
        at_most_one_from(w, 107) == if key_hit(w, 107) { none_from(w, 108) } else { at_most_one_from(w, 108) },
        key_hit(w, 108) == (w & 0xffe39c7c == 0xc1e10800),
        none_from(w, 108) == (!key_hit(w, 108) && none_from(w, 109)),
        at_most_one_from(w, 108) == if key_hit(w, 108) { none_from(w, 109) } else { at_most_one_from(w, 109) },
        key_hit(w, 109) == (w & 0xfff09078 == 0xc1d09000),
        none_from(w, 109) == (!key_hit(w, 109) && none_from(w, 110)),
        at_most_one_from(w, 109) == if key_hit(w, 109) { none_from(w, 110) } else { at_most_one_from(w, 110) },
        key_hit(w, 110) == (w & 0xfff09c1c == 0xc1700800),
        none_from(w, 110) == (!key_hit(w, 110) && none_from(w, 111)),
        at_most_one_from(w, 110) == if key_hit(w, 110) { none_from(w, 111) } else { at_most_one_from(w, 111) },
        key_hit(w, 111) == (w & 0xfff0101c == 0xc1800000),
        none_from(w, 111) == (!key_hit(w, 111) && none_from(w, 112)),
        at_most_one_from(w, 111) == if key_hit(w, 111) { none_from(w, 112) } else { at_most_one_from(w, 112) },
        key_hit(w, 112) == (w & 0xfff09c1c == 0xc1600400),
        none_from(w, 112) == (!key_hit(w, 112) && none_from(w, 113)),
        at_most_one_from(w, 112) == if key_hit(w, 112) { none_from(w, 113) } else { at_most_one_from(w, 113) },
        key_hit(w, 113) == (w & 0xffe19c3e == 0xc1e00000),
        none_from(w, 113) == (!key_hit(w, 113) && none_from(w, 114)),
        at_most_one_from(w, 113) == if key_hit(w, 113) { none_from(w, 114) } else { at_most_one_from(w, 114) },
        key_hit(w, 114) == (w & 0xfff09838 == 0xc1900000),
        none_from(w, 114) == (!key_hit(w, 114) && none_from(w, 115)),
        at_most_one_from(w, 114) == if key_hit(w, 114) { none_from(w, 115) } else { at_most_one_from(w, 115) },
        key_hit(w, 115) == (w & 0xfff09c1e == 0xc1600000),
        none_from(w, 115) == (!key_hit(w, 115) && none_from(w, 116)),
        at_most_one_from(w, 115) == if key_hit(w, 115) { none_from(w, 116) } else { at_most_one_from(w, 116) },
        key_hit(w, 116) == (w & 0xffe39c7e == 0xc1e10000),
        none_from(w, 116) == (!key_hit(w, 116) && none_from(w, 117)),
        at_most_one_from(w, 116) == if key_hit(w, 116) { none_from(w, 117) } else { at_most_one_from(w, 117) },
        key_hit(w, 117) == (w & 0xfff09878 == 0xc1908000),
        none_from(w, 117) == (!key_hit(w, 117) && none_from(w, 118)),
        at_most_one_from(w, 117) == if key_hit(w, 117) { none_from(w, 118) } else { at_most_one_from(w, 118) },
        key_hit(w, 118) == (w & 0xfff09c1e == 0xc1700000),
        none_from(w, 118) == (!key_hit(w, 118) && none_from(w, 119)),
        at_most_one_from(w, 118) == if key_hit(w, 118) { none_from(w, 119) } else { at_most_one_from(w, 119) },
        key_hit(w, 119) == (w & 0xfff0001c == 0xc1000000),
        none_from(w, 119) == (!key_hit(w, 119) && none_from(w, 120)),
        at_most_one_from(w, 119) == if key_hit(w, 119) { none_from(w, 120) } else { at_most_one_from(w, 120) },
{
    reveal(key_hit);
    reveal(none_from);
    reveal(at_most_one_from);
}

proof fn lemma_keys_unfold_5(w: u32)
    ensures
        key_hit(w, 120) == (w & 0xfff09c1c == 0xc1200400),
        none_from(w, 120) == (!key_hit(w, 120) && none_from(w, 121)),
        at_most_one_from(w, 120) == if key_hit(w, 120) { none_from(w, 121) } else { at_most_one_from(w, 121) },
        key_hit(w, 121) == (w & 0xffe19c3e == 0xc1a00000),
        none_from(w, 121) == (!key_hit(w, 121) && none_from(w, 122)),
        at_most_one_from(w, 121) == if key_hit(w, 121) { none_from(w, 122) } else { at_most_one_from(w, 122) },
        key_hit(w, 122) == (w & 0xfff09038 == 0xc1100000),
        none_from(w, 122) == (!key_hit(w, 122) && none_from(w, 123)),
        at_most_one_from(w, 122) == if key_hit(w, 122) { none_from(w, 123) } else { at_most_one_from(w, 123) },
        key_hit(w, 123) == (w & 0xfff09c1e == 0xc1200000),
        none_from(w, 123) == (!key_hit(w, 123) && none_from(w, 124)),
        at_most_one_from(w, 123) == if key_hit(w, 123) { none_from(w, 124) } else { at_most_one_from(w, 124) },
        key_hit(w, 124) == (w & 0xffe39c7e == 0xc1a10000),
        none_from(w, 124) == (!key_hit(w, 124) && none_from(w, 125)),
        at_most_one_from(w, 124) == if key_hit(w, 124) { none_from(w, 125) } else { at_most_one_from(w, 125) },
        key_hit(w, 125) == (w & 0xfff09078 == 0xc1108000),
        none_from(w, 125) == (!key_hit(w, 125) && none_from(w, 126)),
        at_most_one_from(w, 125) == if key_hit(w, 125) { none_from(w, 126) } else { at_most_one_from(w, 126) },
        key_hit(w, 126) == (w & 0xfff09c1e == 0xc1300000),
        none_from(w, 126) == (!key_hit(w, 126) && none_from(w, 127)),
        at_most_one_from(w, 126) == if key_hit(w, 126) { none_from(w, 127) } else { at_most_one_from(w, 127) },
        key_hit(w, 127) == (w & 0xfff01018 == 0xc1c01008),
        none_from(w, 127) == (!key_hit(w, 127) && none_from(w, 128)),
        at_most_one_from(w, 127) == if key_hit(w, 127) { none_from(w, 128) } else { at_most_one_from(w, 128) },
        key_hit(w, 128) == (w & 0xfff09c18 == 0xc1600c08),
        none_from(w, 128) == (!key_hit(w, 128) && none_from(w, 129)),
        at_most_one_from(w, 128) == if key_hit(w, 128) { none_from(w, 129) } else { at_most_one_from(w, 129) },
        key_hit(w, 129) == (w & 0xffe19c3c == 0xc1e00808),
        none_from(w, 129) == (!key_hit(w, 129) && none_from(w, 130)),
        at_most_one_from(w, 129) == if key_hit(w, 129) { none_from(w, 130) } else { at_most_one_from(w, 130) },
        key_hit(w, 130) == (w & 0xfff09038 == 0xc1d01008),
        none_from(w, 130) == (!key_hit(w, 130) && none_from(w, 131)),
        at_most_one_from(w, 130) == if key_hit(w, 130) { none_from(w, 131) } else { at_most_one_from(w, 131) },
        key_hit(w, 131) == (w & 0xfff09c1c == 0xc1600808),
        none_from(w, 131) == (!key_hit(w, 131) && none_from(w, 132)),
        at_most_one_from(w, 131) == if key_hit(w, 131) { none_from(w, 132) } else { at_most_one_from(w, 132) },
        key_hit(w, 132) == (w & 0xffe39c7c == 0xc1e10808),
        none_from(w, 132) == (!key_hit(w, 132) && none_from(w, 133)),
        at_most_one_from(w, 132) == if key_hit(w, 132) { none_from(w, 133) } else { at_most_one_from(w, 133) },
        key_hit(w, 133) == (w & 0xfff09078 == 0xc1d09008),
        none_from(w, 133) == (!key_hit(w, 133) && none_from(w, 134)),
        at_most_one_from(w, 133) == if key_hit(w, 133) { none_from(w, 134) } else { at_most_one_from(w, 134) },
        key_hit(w, 134) == (w & 0xfff09c1c == 0xc1700808),
        none_from(w, 134) == (!key_hit(w, 134) && none_from(w, 135)),
        at_most_one_from(w, 134) == if key_hit(w, 134) { none_from(w, 135) } else { at_most_one_from(w, 135) },
        key_hit(w, 135) == (w & 0xfff0101c == 0xc1800008),
        none_from(w, 135) == (!key_hit(w, 135) && none_from(w, 136)),
        at_most_one_from(w, 135) == if key_hit(w, 135) { none_from(w, 136) } else { at_most_one_from(w, 136) },
        key_hit(w, 136) == (w & 0xfff09c1c == 0xc1600408),
        none_from(w, 136) == (!key_hit(w, 136) && none_from(w, 137)),
        at_most_one_from(w, 136) == if key_hit(w, 136) { none_from(w, 137) } else { at_most_one_from(w, 137) },
        key_hit(w, 137) == (w & 0xffe19c3e == 0xc1e00008),
        none_from(w, 137) == (!key_hit(w, 137) && none_from(w, 138)),
        at_most_one_from(w, 137) == if key_hit(w, 137) { none_from(w, 138) } else { at_most_one_from(w, 138) },
        key_hit(w, 138) == (w & 0xfff09838 == 0xc1900008),
        none_from(w, 138) == (!key_hit(w, 138) && none_from(w, 139)),
        at_most_one_from(w, 138) == if key_hit(w, 138) { none_from(w, 139) } else { at_most_one_from(w, 139) },
        key_hit(w, 139) == (w & 0xfff09c1e == 0xc1600008),
        none_from(w, 139) == (!key_hit(w, 139) && none_from(w, 140)),
        at_most_one_from(w, 139) == if key_hit(w, 139) { none_from(w, 140) } else { at_most_one_from(w, 140) },
        key_hit(w, 140) == (w & 0xffe39c7e == 0xc1e10008),
        none_from(w, 140) == (!key_hit(w, 140) && none_from(w, 141)),
        at_most_one_from(w, 140) == if key_hit(w, 140) { none_from(w, 141) } else { at_most_one_from(w, 141) },
        key_hit(w, 141) == (w & 0xfff09878 == 0xc1908008),
        none_from(w, 141) == (!key_hit(w, 141) && none_from(w, 142)),
        at_most_one_from(w, 141) == if key_hit(w, 141) { none_from(w, 142) } else { at_most_one_from(w, 142) },
        key_hit(w, 142) == (w & 0xfff09c1e == 0xc1700008),
        none_from(w, 142) == (!key_hit(w, 142) && none_from(w, 143)),
        at_most_one_from(w, 142) == if key_hit(w, 142) { none_from(w, 143) } else { at_most_one_from(w, 143) },
        key_hit(w, 143) == (w & 0xfff0001c == 0xc1000008),
        none_from(w, 143) == (!key_hit(w, 143) && none_from(w, 144)),
        at_most_one_from(w, 143) == if key_hit(w, 143) { none_from(w, 144) } else { at_most_one_from(w, 144) },
{
    reveal(key_hit);
    reveal(none_from);
    reveal(at_most_one_from);
}

proof fn lemma_keys_unfold_6(w: u32)
    ensures
        key_hit(w, 144) == (w & 0xfff09c1c == 0xc1200408),
        none_from(w, 144) == (!key_hit(w, 144) && none_from(w, 145)),
        at_most_one_from(w, 144) == if key_hit(w, 144) { none_from(w, 145) } else { at_most_one_from(w, 145) },
        key_hit(w, 145) == (w & 0xffe19c3e == 0xc1a00008),
        none_from(w, 145) == (!key_hit(w, 145) && none_from(w, 146)),
        at_most_one_from(w, 145) == if key_hit(w, 145) { none_from(w, 146) } else { at_most_one_from(w, 146) },
        key_hit(w, 146) == (w & 0xfff09038 == 0xc1100008),
        none_from(w, 146) == (!key_hit(w, 146) && none_from(w, 147)),
        at_most_one_from(w, 146) == if key_hit(w, 146) { none_from(w, 147) } else { at_most_one_from(w, 147) },
        key_hit(w, 147) == (w & 0xfff09c1e == 0xc1200008),
        none_from(w, 147) == (!key_hit(w, 147) && none_from(w, 148)),
        at_most_one_from(w, 147) == if key_hit(w, 147) { none_from(w, 148) } else { at_most_one_from(w, 148) },
        key_hit(w, 148) == (w & 0xffe39c7e == 0xc1a10008),
        none_from(w, 148) == (!key_hit(w, 148) && none_from(w, 149)),
        at_most_one_from(w, 148) == if key_hit(w, 148) { none_from(w, 149) } else { at_most_one_from(w, 149) },
        key_hit(w, 149) == (w & 0xfff09078 == 0xc1108008),
        none_from(w, 149) == (!key_hit(w, 149) && none_from(w, 150)),
        at_most_one_from(w, 149) == if key_hit(w, 149) { none_from(w, 150) } else { at_most_one_from(w, 150) },
        key_hit(w, 150) == (w & 0xfff09c1e == 0xc1300008),
        none_from(w, 150) == (!key_hit(w, 150) && none_from(w, 151)),
        at_most_one_from(w, 150) == if key_hit(w, 150) { none_from(w, 151) } else { at_most_one_from(w, 151) },
        key_hit(w, 151) == (w & 0xffe0e00c == 0x80408000),
        none_from(w, 151) == (!key_hit(w, 151) && none_from(w, 152)),
        at_most_one_from(w, 151) == if key_hit(w, 151) { none_from(w, 152) } else { at_most_one_from(w, 152) },
        key_hit(w, 152) == (w & 0xffe0e00c == 0x80408008),
        none_from(w, 152) == (!key_hit(w, 152) && none_from(w, 153)),
        at_most_one_from(w, 152) == if key_hit(w, 152) { none_from(w, 153) } else { at_most_one_from(w, 153) },
        key_hit(w, 153) == (w & 0xfff0001c == 0xc1000014),
        none_from(w, 153) == (!key_hit(w, 153) && none_from(w, 154)),
        at_most_one_from(w, 153) == if key_hit(w, 153) { none_from(w, 154) } else { at_most_one_from(w, 154) },
        key_hit(w, 154) == (w & 0xfff09038 == 0xc1100030),
        none_from(w, 154) == (!key_hit(w, 154) && none_from(w, 155)),
        at_most_one_from(w, 154) == if key_hit(w, 154) { none_from(w, 155) } else { at_most_one_from(w, 155) },
        key_hit(w, 155) == (w & 0xfff09c1e == 0xc1200014),
        none_from(w, 155) == (!key_hit(w, 155) && none_from(w, 156)),
        at_most_one_from(w, 155) == if key_hit(w, 155) { none_from(w, 156) } else { at_most_one_from(w, 156) },
        key_hit(w, 156) == (w & 0xfff09078 == 0xc1108030),
        none_from(w, 156) == (!key_hit(w, 156) && none_from(w, 157)),
        at_most_one_from(w, 156) == if key_hit(w, 156) { none_from(w, 157) } else { at_most_one_from(w, 157) },
        key_hit(w, 157) == (w & 0xfff09c1e == 0xc1300014),
        none_from(w, 157) == (!key_hit(w, 157) && none_from(w, 158)),
        at_most_one_from(w, 157) == if key_hit(w, 157) { none_from(w, 158) } else { at_most_one_from(w, 158) },
        key_hit(w, 158) == (w & 0xffe0e00c == 0x80608000),
        none_from(w, 158) == (!key_hit(w, 158) && none_from(w, 159)),
        at_most_one_from(w, 158) == if key_hit(w, 158) { none_from(w, 159) } else { at_most_one_from(w, 159) },
        key_hit(w, 159) == (w & 0xfff01018 == 0xc1c01010),
        none_from(w, 159) == (!key_hit(w, 159) && none_from(w, 160)),
        at_most_one_from(w, 159) == if key_hit(w, 159) { none_from(w, 160) } else { at_most_one_from(w, 160) },
        key_hit(w, 160) == (w & 0xfff09c18 == 0xc1600c10),
        none_from(w, 160) == (!key_hit(w, 160) && none_from(w, 161)),
        at_most_one_from(w, 160) == if key_hit(w, 160) { none_from(w, 161) } else { at_most_one_from(w, 161) },
        key_hit(w, 161) == (w & 0xffe19c3c == 0xc1e00810),
        none_from(w, 161) == (!key_hit(w, 161) && none_from(w, 162)),
        at_most_one_from(w, 161) == if key_hit(w, 161) { none_from(w, 162) } else { at_most_one_from(w, 162) },
        key_hit(w, 162) == (w & 0xfff09038 == 0xc1d01010),
        none_from(w, 162) == (!key_hit(w, 162) && none_from(w, 163)),
        at_most_one_from(w, 162) == if key_hit(w, 162) { none_from(w, 163) } else { at_most_one_from(w, 163) },
        key_hit(w, 163) == (w & 0xfff09c1c == 0xc1600810),
        none_from(w, 163) == (!key_hit(w, 163) && none_from(w, 164)),
        at_most_one_from(w, 163) == if key_hit(w, 163) { none_from(w, 164) } else { at_most_one_from(w, 164) },
        key_hit(w, 164) == (w & 0xffe39c7c == 0xc1e10810),
        none_from(w, 164) == (!key_hit(w, 164) && none_from(w, 165)),
        at_most_one_from(w, 164) == if key_hit(w, 164) { none_from(w, 165) } else { at_most_one_from(w, 165) },
        key_hit(w, 165) == (w & 0xfff09078 == 0xc1d09010),
        none_from(w, 165) == (!key_hit(w, 165) && none_from(w, 166)),
        at_most_one_from(w, 165) == if key_hit(w, 165) { none_from(w, 166) } else { at_most_one_from(w, 166) },
        key_hit(w, 166) == (w & 0xfff09c1c == 0xc1700810),
        none_from(w, 166) == (!key_hit(w, 166) && none_from(w, 167)),
        at_most_one_from(w, 166) == if key_hit(w, 166) { none_from(w, 167) } else { at_most_one_from(w, 167) },
        key_hit(w, 167) == (w & 0xfff0101c == 0xc1800010),
        none_from(w, 167) == (!key_hit(w, 167) && none_from(w, 168)),
        at_most_one_from(w, 167) == if key_hit(w, 167) { none_from(w, 168) } else { at_most_one_from(w, 168) },
{
    reveal(key_hit);
    reveal(none_from);
    reveal(at_most_one_from);
}

proof fn lemma_keys_unfold_7(w: u32)
    ensures
        key_hit(w, 168) == (w & 0xfff09c1c == 0xc1600410),
        none_from(w, 168) == (!key_hit(w, 168) && none_from(w, 169)),
        at_most_one_from(w, 168) == if key_hit(w, 168) { none_from(w, 169) } else { at_most_one_from(w, 169) },
        key_hit(w, 169) == (w & 0xffe19c3e == 0xc1e00010),
        none_from(w, 169) == (!key_hit(w, 169) && none_from(w, 170)),
        at_most_one_from(w, 169) == if key_hit(w, 169) { none_from(w, 170) } else { at_most_one_from(w, 170) },
        key_hit(w, 170) == (w & 0xfff09838 == 0xc1900010),
        none_from(w, 170) == (!key_hit(w, 170) && none_from(w, 171)),
        at_most_one_from(w, 170) == if key_hit(w, 170) { none_from(w, 171) } else { at_most_one_from(w, 171) },
        key_hit(w, 171) == (w & 0xfff09c1e == 0xc1600010),
        none_from(w, 171) == (!key_hit(w, 171) && none_from(w, 172)),
        at_most_one_from(w, 171) == if key_hit(w, 171) { none_from(w, 172) } else { at_most_one_from(w, 172) },
        key_hit(w, 172) == (w & 0xffe39c7e == 0xc1e10010),
        none_from(w, 172) == (!key_hit(w, 172) && none_from(w, 173)),
        at_most_one_from(w, 172) == if key_hit(w, 172) { none_from(w, 173) } else { at_most_one_from(w, 173) },
        key_hit(w, 173) == (w & 0xfff09878 == 0xc1908010),
        none_from(w, 173) == (!key_hit(w, 173) && none_from(w, 174)),
        at_most_one_from(w, 173) == if key_hit(w, 173) { none_from(w, 174) } else { at_most_one_from(w, 174) },
        key_hit(w, 174) == (w & 0xfff09c1e == 0xc1700010),
        none_from(w, 174) == (!key_hit(w, 174) && none_from(w, 175)),
        at_most_one_from(w, 174) == if key_hit(w, 174) { none_from(w, 175) } else { at_most_one_from(w, 175) },
        key_hit(w, 175) == (w & 0xfff0001c == 0xc1000010),
        none_from(w, 175) == (!key_hit(w, 175) && none_from(w, 176)),
        at_most_one_from(w, 175) == if key_hit(w, 175) { none_from(w, 176) } else { at_most_one_from(w, 176) },
        key_hit(w, 176) == (w & 0xfff09c1c == 0xc1200410),
        none_from(w, 176) == (!key_hit(w, 176) && none_from(w, 177)),
        at_most_one_from(w, 176) == if key_hit(w, 176) { none_from(w, 177) } else { at_most_one_from(w, 177) },
        key_hit(w, 177) == (w & 0xffe19c3e == 0xc1a00010),
        none_from(w, 177) == (!key_hit(w, 177) && none_from(w, 178)),
        at_most_one_from(w, 177) == if key_hit(w, 177) { none_from(w, 178) } else { at_most_one_from(w, 178) },
        key_hit(w, 178) == (w & 0xfff09038 == 0xc1100010),
        none_from(w, 178) == (!key_hit(w, 178) && none_from(w, 179)),
        at_most_one_from(w, 178) == if key_hit(w, 178) { none_from(w, 179) } else { at_most_one_from(w, 179) },
        key_hit(w, 179) == (w & 0xfff09c1e == 0xc1200010),
        none_from(w, 179) == (!key_hit(w, 179) && none_from(w, 180)),
        at_most_one_from(w, 179) == if key_hit(w, 179) { none_from(w, 180) } else { at_most_one_from(w, 180) },
        key_hit(w, 180) == (w & 0xffe39c7e == 0xc1a10010),
        none_from(w, 180) == (!key_hit(w, 180) && none_from(w, 181)),
        at_most_one_from(w, 180) == if key_hit(w, 180) { none_from(w, 181) } else { at_most_one_from(w, 181) },
        key_hit(w, 181) == (w & 0xfff09078 == 0xc1108010),
        none_from(w, 181) == (!key_hit(w, 181) && none_from(w, 182)),
        at_most_one_from(w, 181) == if key_hit(w, 181) { none_from(w, 182) } else { at_most_one_from(w, 182) },
        key_hit(w, 182) == (w & 0xfff09c1e == 0xc1300010),
        none_from(w, 182) == (!key_hit(w, 182) && none_from(w, 183)),
        at_most_one_from(w, 182) == if key_hit(w, 182) { none_from(w, 183) } else { at_most_one_from(w, 183) },
        key_hit(w, 183) == (w & 0xfff01018 == 0xc1c01018),
        none_from(w, 183) == (!key_hit(w, 183) && none_from(w, 184)),
        at_most_one_from(w, 183) == if key_hit(w, 183) { none_from(w, 184) } else { at_most_one_from(w, 184) },
        key_hit(w, 184) == (w & 0xfff09c18 == 0xc1600c18),
        none_from(w, 184) == (!key_hit(w, 184) && none_from(w, 185)),
        at_most_one_from(w, 184) == if key_hit(w, 184) { none_from(w, 185) } else { at_most_one_from(w, 185) },
        key_hit(w, 185) == (w & 0xffe19c3c == 0xc1e00818),
        none_from(w, 185) == (!key_hit(w, 185) && none_from(w, 186)),
        at_most_one_from(w, 185) == if key_hit(w, 185) { none_from(w, 186) } else { at_most_one_from(w, 186) },
        key_hit(w, 186) == (w & 0xfff09038 == 0xc1d01018),
        none_from(w, 186) == (!key_hit(w, 186) && none_from(w, 187)),
        at_most_one_from(w, 186) == if key_hit(w, 186) { none_from(w, 187) } else { at_most_one_from(w, 187) },
        key_hit(w, 187) == (w & 0xfff09c1c == 0xc1600818),
        none_from(w, 187) == (!key_hit(w, 187) && none_from(w, 188)),
        at_most_one_from(w, 187) == if key_hit(w, 187) { none_from(w, 188) } else { at_most_one_from(w, 188) },
        key_hit(w, 188) == (w & 0xffe39c7c == 0xc1e10818),
        none_from(w, 188) == (!key_hit(w, 188) && none_from(w, 189)),
        at_most_one_from(w, 188) == if key_hit(w, 188) { none_from(w, 189) } else { at_most_one_from(w, 189) },
        key_hit(w, 189) == (w & 0xfff09078 == 0xc1d09018),
        none_from(w, 189) == (!key_hit(w, 189) && none_from(w, 190)),
        at_most_one_from(w, 189) == if key_hit(w, 189) { none_from(w, 190) } else { at_most_one_from(w, 190) },
        key_hit(w, 190) == (w & 0xfff09c1c == 0xc1700818),
        none_from(w, 190) == (!key_hit(w, 190) && none_from(w, 191)),
        at_most_one_from(w, 190) == if key_hit(w, 190) { none_from(w, 191) } else { at_most_one_from(w, 191) },
        key_hit(w, 191) == (w & 0xfff0101c == 0xc1800018),
        none_from(w, 191) == (!key_hit(w, 191) && none_from(w, 192)),
        at_most_one_from(w, 191) == if key_hit(w, 191) { none_from(w, 192) } else { at_most_one_from(w, 192) },
{
    reveal(key_hit);
    reveal(none_from);
    reveal(at_most_one_from);
}

proof fn lemma_keys_unfold_8(w: u32)
    ensures
        key_hit(w, 192) == (w & 0xfff09c1c == 0xc1600418),
        none_from(w, 192) == (!key_hit(w, 192) && none_from(w, 193)),
        at_most_one_from(w, 192) == if key_hit(w, 192) { none_from(w, 193) } else { at_most_one_from(w, 193) },
        key_hit(w, 193) == (w & 0xffe19c3e == 0xc1e00018),
        none_from(w, 193) == (!key_hit(w, 193) && none_from(w, 194)),
        at_most_one_from(w, 193) == if key_hit(w, 193) { none_from(w, 194) } else { at_most_one_from(w, 194) },
        key_hit(w, 194) == (w & 0xfff09838 == 0xc1900018),
        none_from(w, 194) == (!key_hit(w, 194) && none_from(w, 195)),
        at_most_one_from(w, 194) == if key_hit(w, 194) { none_from(w, 195) } else { at_most_one_from(w, 195) },
        key_hit(w, 195) == (w & 0xfff09c1e == 0xc1600018),
        none_from(w, 195) == (!key_hit(w, 195) && none_from(w, 196)),
        at_most_one_from(w, 195) == if key_hit(w, 195) { none_from(w, 196) } else { at_most_one_from(w, 196) },
        key_hit(w, 196) == (w & 0xffe39c7e == 0xc1e10018),
        none_from(w, 196) == (!key_hit(w, 196) && none_from(w, 197)),
        at_most_one_from(w, 196) == if key_hit(w, 196) { none_from(w, 197) } else { at_most_one_from(w, 197) },
        key_hit(w, 197) == (w & 0xfff09878 == 0xc1908018),
        none_from(w, 197) == (!key_hit(w, 197) && none_from(w, 198)),
        at_most_one_from(w, 197) == if key_hit(w, 197) { none_from(w, 198) } else { at_most_one_from(w, 198) },
        key_hit(w, 198) == (w & 0xfff09c1e == 0xc1700018),
        none_from(w, 198) == (!key_hit(w, 198) && none_from(w, 199)),
        at_most_one_from(w, 198) == if key_hit(w, 198) { none_from(w, 199) } else { at_most_one_from(w, 199) },
        key_hit(w, 199) == (w & 0xfff0001c == 0xc1000018),
        none_from(w, 199) == (!key_hit(w, 199) && none_from(w, 200)),
        at_most_one_from(w, 199) == if key_hit(w, 199) { none_from(w, 200) } else { at_most_one_from(w, 200) },
        key_hit(w, 200) == (w & 0xfff09c1c == 0xc1200418),
        none_from(w, 200) == (!key_hit(w, 200) && none_from(w, 201)),
        at_most_one_from(w, 200) == if key_hit(w, 200) { none_from(w, 201) } else { at_most_one_from(w, 201) },
        key_hit(w, 201) == (w & 0xffe19c3e == 0xc1a00018),
        none_from(w, 201) == (!key_hit(w, 201) && none_from(w, 202)),
        at_most_one_from(w, 201) == if key_hit(w, 201) { none_from(w, 202) } else { at_most_one_from(w, 202) },
        key_hit(w, 202) == (w & 0xfff09038 == 0xc1100018),
        none_from(w, 202) == (!key_hit(w, 202) && none_from(w, 203)),
        at_most_one_from(w, 202) == if key_hit(w, 202) { none_from(w, 203) } else { at_most_one_from(w, 203) },
        key_hit(w, 203) == (w & 0xfff09c1e == 0xc1200018),
        none_from(w, 203) == (!key_hit(w, 203) && none_from(w, 204)),
        at_most_one_from(w, 203) == if key_hit(w, 203) { none_from(w, 204) } else { at_most_one_from(w, 204) },
        key_hit(w, 204) == (w & 0xffe39c7e == 0xc1a10018),
        none_from(w, 204) == (!key_hit(w, 204) && none_from(w, 205)),
        at_most_one_from(w, 204) == if key_hit(w, 204) { none_from(w, 205) } else { at_most_one_from(w, 205) },
        key_hit(w, 205) == (w & 0xfff09078 == 0xc1108018),
        none_from(w, 205) == (!key_hit(w, 205) && none_from(w, 206)),
        at_most_one_from(w, 205) == if key_hit(w, 205) { none_from(w, 206) } else { at_most_one_from(w, 206) },
        key_hit(w, 206) == (w & 0xfff09c1e == 0xc1300018),
        none_from(w, 206) == (!key_hit(w, 206) && none_from(w, 207)),
        at_most_one_from(w, 206) == if key_hit(w, 206) { none_from(w, 207) } else { at_most_one_from(w, 207) },
        key_hit(w, 207) == (w & 0xfff0001c == 0xc1000004),
        none_from(w, 207) == (!key_hit(w, 207) && none_from(w, 208)),
        at_most_one_from(w, 207) == if key_hit(w, 207) { none_from(w, 208) } else { at_most_one_from(w, 208) },
        key_hit(w, 208) == (w & 0xfff09c1c == 0xc1200404),
        none_from(w, 208) == (!key_hit(w, 208) && none_from(w, 209)),
        at_most_one_from(w, 208) == if key_hit(w, 208) { none_from(w, 209) } else { at_most_one_from(w, 209) },
        key_hit(w, 209) == (w & 0xffe19c3e == 0xc1a00004),
        none_from(w, 209) == (!key_hit(w, 209) && none_from(w, 210)),
        at_most_one_from(w, 209) == if key_hit(w, 209) { none_from(w, 210) } else { at_most_one_from(w, 210) },
        key_hit(w, 210) == (w & 0xfff09038 == 0xc1100020),
        none_from(w, 210) == (!key_hit(w, 210) && none_from(w, 211)),
        at_most_one_from(w, 210) == if key_hit(w, 210) { none_from(w, 211) } else { at_most_one_from(w, 211) },
        key_hit(w, 211) == (w & 0xfff09c1e == 0xc1200004),
        none_from(w, 211) == (!key_hit(w, 211) && none_from(w, 212)),
        at_most_one_from(w, 211) == if key_hit(w, 211) { none_from(w, 212) } else { at_most_one_from(w, 212) },
        key_hit(w, 212) == (w & 0xffe39c7e == 0xc1a10004),
        none_from(w, 212) == (!key_hit(w, 212) && none_from(w, 213)),
        at_most_one_from(w, 212) == if key_hit(w, 212) { none_from(w, 213) } else { at_most_one_from(w, 213) },
        key_hit(w, 213) == (w & 0xfff09078 == 0xc1108020),
        none_from(w, 213) == (!key_hit(w, 213) && none_from(w, 214)),
        at_most_one_from(w, 213) == if key_hit(w, 213) { none_from(w, 214) } else { at_most_one_from(w, 214) },
        key_hit(w, 214) == (w & 0xfff09c1e == 0xc1300004),
        none_from(w, 214) == (!key_hit(w, 214) && none_from(w, 215)),
        at_most_one_from(w, 214) == if key_hit(w, 214) { none_from(w, 215) } else { at_most_one_from(w, 215) },
        key_hit(w, 215) == (w & 0xffe0e00c == 0x81408000),
        none_from(w, 215) == (!key_hit(w, 215) && none_from(w, 216)),
        at_most_one_from(w, 215) == if key_hit(w, 215) { none_from(w, 216) } else { at_most_one_from(w, 216) },
{
    reveal(key_hit);
    reveal(none_from);
    reveal(at_most_one_from);
}

proof fn lemma_keys_unfold_9(w: u32)
    ensures
        key_hit(w, 216) == (w & 0xffe0e00c == 0x81608000),
        none_from(w, 216) == (!key_hit(w, 216) && none_from(w, 217)),
        at_most_one_from(w, 216) == if key_hit(w, 216) { none_from(w, 217) } else { at_most_one_from(w, 217) },
        key_hit(w, 217) == (w & 0xffe0e00c == 0x81408008),
        none_from(w, 217) == (!key_hit(w, 217) && none_from(w, 218)),
        at_most_one_from(w, 217) == if key_hit(w, 217) { none_from(w, 218) } else { at_most_one_from(w, 218) },
        key_hit(w, 218) == (w & 0xffe19c38 == 0xc1e01810),
        none_from(w, 218) == (!key_hit(w, 218) && none_from(w, 219)),
        at_most_one_from(w, 218) == if key_hit(w, 218) { none_from(w, 219) } else { at_most_one_from(w, 219) },
        key_hit(w, 219) == (w & 0xffff9c38 == 0xc1e01c10),
        none_from(w, 219) == (!key_hit(w, 219) && none_from(w, 220)),
        at_most_one_from(w, 219) == if key_hit(w, 219) { none_from(w, 220) } else { at_most_one_from(w, 220) },
        key_hit(w, 220) == (w & 0xfff09c18 == 0xc1601810),
        none_from(w, 220) == (!key_hit(w, 220) && none_from(w, 221)),
        at_most_one_from(w, 220) == if key_hit(w, 220) { none_from(w, 221) } else { at_most_one_from(w, 221) },
        key_hit(w, 221) == (w & 0xffe39c78 == 0xc1e11810),
        none_from(w, 221) == (!key_hit(w, 221) && none_from(w, 222)),
        at_most_one_from(w, 221) == if key_hit(w, 221) { none_from(w, 222) } else { at_most_one_from(w, 222) },
        key_hit(w, 222) == (w & 0xffff9c78 == 0xc1e11c10),
        none_from(w, 222) == (!key_hit(w, 222) && none_from(w, 223)),
        at_most_one_from(w, 222) == if key_hit(w, 222) { none_from(w, 223) } else { at_most_one_from(w, 223) },
        key_hit(w, 223) == (w & 0xfff09c18 == 0xc1701810),
        none_from(w, 223) == (!key_hit(w, 223) && none_from(w, 224)),
        at_most_one_from(w, 223) == if key_hit(w, 223) { none_from(w, 224) } else { at_most_one_from(w, 224) },
        key_hit(w, 224) == (w & 0xffe19c38 == 0xc1a01810),
        none_from(w, 224) == (!key_hit(w, 224) && none_from(w, 225)),
        at_most_one_from(w, 224) == if key_hit(w, 224) { none_from(w, 225) } else { at_most_one_from(w, 225) },
        key_hit(w, 225) == (w & 0xffff9c38 == 0xc1a01c10),
        none_from(w, 225) == (!key_hit(w, 225) && none_from(w, 226)),
        at_most_one_from(w, 225) == if key_hit(w, 225) { none_from(w, 226) } else { at_most_one_from(w, 226) },
        key_hit(w, 226) == (w & 0xfff09c18 == 0xc1201810),
        none_from(w, 226) == (!key_hit(w, 226) && none_from(w, 227)),
        at_most_one_from(w, 226) == if key_hit(w, 226) { none_from(w, 227) } else { at_most_one_from(w, 227) },
        key_hit(w, 227) == (w & 0xffe39c78 == 0xc1a11810),
        none_from(w, 227) == (!key_hit(w, 227) && none_from(w, 228)),
        at_most_one_from(w, 227) == if key_hit(w, 227) { none_from(w, 228) } else { at_most_one_from(w, 228) },
        key_hit(w, 228) == (w & 0xffff9c78 == 0xc1a11c10),
        none_from(w, 228) == (!key_hit(w, 228) && none_from(w, 229)),
        at_most_one_from(w, 228) == if key_hit(w, 228) { none_from(w, 229) } else { at_most_one_from(w, 229) },
        key_hit(w, 229) == (w & 0xfff09c18 == 0xc1301810),
        none_from(w, 229) == (!key_hit(w, 229) && none_from(w, 230)),
        at_most_one_from(w, 229) == if key_hit(w, 229) { none_from(w, 230) } else { at_most_one_from(w, 230) },
        key_hit(w, 230) == (w & 0xffe19c38 == 0xc1a01010),
        none_from(w, 230) == (!key_hit(w, 230) && none_from(w, 231)),
        at_most_one_from(w, 230) == if key_hit(w, 230) { none_from(w, 231) } else { at_most_one_from(w, 231) },
        key_hit(w, 231) == (w & 0xfff09038 == 0xc1501018),
        none_from(w, 231) == (!key_hit(w, 231) && none_from(w, 232)),
        at_most_one_from(w, 231) == if key_hit(w, 231) { none_from(w, 232) } else { at_most_one_from(w, 232) },
        key_hit(w, 232) == (w & 0xfff09c18 == 0xc1201010),
        none_from(w, 232) == (!key_hit(w, 232) && none_from(w, 233)),
        at_most_one_from(w, 232) == if key_hit(w, 232) { none_from(w, 233) } else { at_most_one_from(w, 233) },
        key_hit(w, 233) == (w & 0xffe39c78 == 0xc1a11010),
        none_from(w, 233) == (!key_hit(w, 233) && none_from(w, 234)),
        at_most_one_from(w, 233) == if key_hit(w, 233) { none_from(w, 234) } else { at_most_one_from(w, 234) },
        key_hit(w, 234) == (w & 0xfff09078 == 0xc1509018),
        none_from(w, 234) == (!key_hit(w, 234) && none_from(w, 235)),
        at_most_one_from(w, 234) == if key_hit(w, 234) { none_from(w, 235) } else { at_most_one_from(w, 235) },
        key_hit(w, 235) == (w & 0xfff09c18 == 0xc1301010),
        none_from(w, 235) == (!key_hit(w, 235) && none_from(w, 236)),
        at_most_one_from(w, 235) == if key_hit(w, 235) { none_from(w, 236) } else { at_most_one_from(w, 236) },
        key_hit(w, 236) == (w & 0xfff09038 == 0xc1500018),
        none_from(w, 236) == (!key_hit(w, 236) && none_from(w, 237)),
        at_most_one_from(w, 236) == if key_hit(w, 236) { none_from(w, 237) } else { at_most_one_from(w, 237) },
        key_hit(w, 237) == (w & 0xffff9c38 == 0xc1e01c00),
        none_from(w, 237) == (!key_hit(w, 237) && none_from(w, 238)),
        at_most_one_from(w, 237) == if key_hit(w, 237) { none_from(w, 238) } else { at_most_one_from(w, 238) },
        key_hit(w, 238) == (w & 0xffff9c78 == 0xc1e11c00),
        none_from(w, 238) == (!key_hit(w, 238) && none_from(w, 239)),
        at_most_one_from(w, 238) == if key_hit(w, 238) { none_from(w, 239) } else { at_most_one_from(w, 239) },
        key_hit(w, 239) == (w & 0xffff9c38 == 0xc1a41c00),
        none_from(w, 239) == (!key_hit(w, 239) && none_from(w, 240)),
        at_most_one_from(w, 239) == if key_hit(w, 239) { none_from(w, 240) } else { at_most_one_from(w, 240) },
{
    reveal(key_hit);
    reveal(none_from);
    reveal(at_most_one_from);
}

proof fn lemma_keys_unfold_10(w: u32)
    ensures
        key_hit(w, 240) == (w & 0xffff9c78 == 0xc1a51c00),
        none_from(w, 240) == (!key_hit(w, 240) && none_from(w, 241)),
        at_most_one_from(w, 240) == if key_hit(w, 240) { none_from(w, 241) } else { at_most_one_from(w, 241) },
        key_hit(w, 241) == (w & 0xffff9c38 == 0xc1a01c00),
        none_from(w, 241) == (!key_hit(w, 241) && none_from(w, 242)),
        at_most_one_from(w, 241) == if key_hit(w, 241) { none_from(w, 242) } else { at_most_one_from(w, 242) },
        key_hit(w, 242) == (w & 0xffff9c78 == 0xc1a11c00),
        none_from(w, 242) == (!key_hit(w, 242) && none_from(w, 243)),
        at_most_one_from(w, 242) == if key_hit(w, 242) { none_from(w, 243) } else { at_most_one_from(w, 243) },
        key_hit(w, 243) == (w & 0xffe19c38 == 0xc1a01020),
        none_from(w, 243) == (!key_hit(w, 243) && none_from(w, 244)),
        at_most_one_from(w, 243) == if key_hit(w, 243) { none_from(w, 244) } else { at_most_one_from(w, 244) },
        key_hit(w, 244) == (w & 0xfff09030 == 0xc1d00020),
        none_from(w, 244) == (!key_hit(w, 244) && none_from(w, 245)),
        at_most_one_from(w, 244) == if key_hit(w, 244) { none_from(w, 245) } else { at_most_one_from(w, 245) },
        key_hit(w, 245) == (w & 0xfff09c18 == 0xc1201008),
        none_from(w, 245) == (!key_hit(w, 245) && none_from(w, 246)),
        at_most_one_from(w, 245) == if key_hit(w, 245) { none_from(w, 246) } else { at_most_one_from(w, 246) },
        key_hit(w, 246) == (w & 0xffe39c78 == 0xc1a11020),
        none_from(w, 246) == (!key_hit(w, 246) && none_from(w, 247)),
        at_most_one_from(w, 246) == if key_hit(w, 246) { none_from(w, 247) } else { at_most_one_from(w, 247) },
        key_hit(w, 247) == (w & 0xfff09070 == 0xc1109040),
        none_from(w, 247) == (!key_hit(w, 247) && none_from(w, 248)),
        at_most_one_from(w, 247) == if key_hit(w, 247) { none_from(w, 248) } else { at_most_one_from(w, 248) },
        key_hit(w, 248) == (w & 0xfff09c18 == 0xc1301008),
        none_from(w, 248) == (!key_hit(w, 248) && none_from(w, 249)),
        at_most_one_from(w, 248) == if key_hit(w, 248) { none_from(w, 249) } else { at_most_one_from(w, 249) },
        key_hit(w, 249) == (w & 0xffe19c38 == 0xc1a01000),
        none_from(w, 249) == (!key_hit(w, 249) && none_from(w, 250)),
        at_most_one_from(w, 249) == if key_hit(w, 249) { none_from(w, 250) } else { at_most_one_from(w, 250) },
        key_hit(w, 250) == (w & 0xfff09038 == 0xc1501008),
        none_from(w, 250) == (!key_hit(w, 250) && none_from(w, 251)),
        at_most_one_from(w, 250) == if key_hit(w, 250) { none_from(w, 251) } else { at_most_one_from(w, 251) },
        key_hit(w, 251) == (w & 0xfff09c18 == 0xc1201000),
        none_from(w, 251) == (!key_hit(w, 251) && none_from(w, 252)),
        at_most_one_from(w, 251) == if key_hit(w, 251) { none_from(w, 252) } else { at_most_one_from(w, 252) },
        key_hit(w, 252) == (w & 0xffe39c78 == 0xc1a11000),
        none_from(w, 252) == (!key_hit(w, 252) && none_from(w, 253)),
        at_most_one_from(w, 252) == if key_hit(w, 252) { none_from(w, 253) } else { at_most_one_from(w, 253) },
        key_hit(w, 253) == (w & 0xfff09078 == 0xc1509008),
        none_from(w, 253) == (!key_hit(w, 253) && none_from(w, 254)),
        at_most_one_from(w, 253) == if key_hit(w, 253) { none_from(w, 254) } else { at_most_one_from(w, 254) },
        key_hit(w, 254) == (w & 0xfff09c18 == 0xc1301000),
        none_from(w, 254) == (!key_hit(w, 254) && none_from(w, 255)),
        at_most_one_from(w, 254) == if key_hit(w, 254) { none_from(w, 255) } else { at_most_one_from(w, 255) },
        key_hit(w, 255) == (w & 0xffff9c38 == 0xc1e01c08),
        none_from(w, 255) == (!key_hit(w, 255) && none_from(w, 256)),
        at_most_one_from(w, 255) == if key_hit(w, 255) { none_from(w, 256) } else { at_most_one_from(w, 256) },
        key_hit(w, 256) == (w & 0xffff9c78 == 0xc1e11c08),
        none_from(w, 256) == (!key_hit(w, 256) && none_from(w, 257)),
        at_most_one_from(w, 256) == if key_hit(w, 256) { none_from(w, 257) } else { at_most_one_from(w, 257) },
        key_hit(w, 257) == (w & 0xffff9c38 == 0xc1a41c08),
        none_from(w, 257) == (!key_hit(w, 257) && none_from(w, 258)),
        at_most_one_from(w, 257) == if key_hit(w, 257) { none_from(w, 258) } else { at_most_one_from(w, 258) },
        key_hit(w, 258) == (w & 0xffff9c78 == 0xc1a51c08),
        none_from(w, 258) == (!key_hit(w, 258) && none_from(w, 259)),
        at_most_one_from(w, 258) == if key_hit(w, 258) { none_from(w, 259) } else { at_most_one_from(w, 259) },
        key_hit(w, 259) == (w & 0xffff9c38 == 0xc1e41c00),
        none_from(w, 259) == (!key_hit(w, 259) && none_from(w, 260)),
        at_most_one_from(w, 259) == if key_hit(w, 259) { none_from(w, 260) } else { at_most_one_from(w, 260) },
        key_hit(w, 260) == (w & 0xffff9c78 == 0xc1e51c00),
        none_from(w, 260) == (!key_hit(w, 260) && none_from(w, 261)),
        at_most_one_from(w, 260) == if key_hit(w, 260) { none_from(w, 261) } else { at_most_one_from(w, 261) },
        key_hit(w, 261) == (w & 0xffff9c38 == 0xc1e41c08),
        none_from(w, 261) == (!key_hit(w, 261) && none_from(w, 262)),
        at_most_one_from(w, 261) == if key_hit(w, 261) { none_from(w, 262) } else { at_most_one_from(w, 262) },
        key_hit(w, 262) == (w & 0xffff9c78 == 0xc1e51c08),
        none_from(w, 262) == (!key_hit(w, 262) && none_from(w, 263)),
        at_most_one_from(w, 262) == if key_hit(w, 262) { none_from(w, 263) } else { at_most_one_from(w, 263) },
        key_hit(w, 263) == (w & 0xffff9c38 == 0xc1a01c08),
        none_from(w, 263) == (!key_hit(w, 263) && none_from(w, 264)),
        at_most_one_from(w, 263) == if key_hit(w, 263) { none_from(w, 264) } else { at_most_one_from(w, 264) },
{
    reveal(key_hit);
    reveal(none_from);
    reveal(at_most_one_from);
}

proof fn lemma_keys_unfold_11(w: u32)
    ensures
        key_hit(w, 264) == (w & 0xffff9c78 == 0xc1a11c08),
        none_from(w, 264) == (!key_hit(w, 264) && none_from(w, 265)),
        at_most_one_from(w, 264) == if key_hit(w, 264) { none_from(w, 265) } else { at_most_one_from(w, 265) },
        key_hit(w, 265) == (w & 0xfff09038 == 0xc1500008),
        none_from(w, 265) == (!key_hit(w, 265) && none_from(w, 266)),
        at_most_one_from(w, 265) == if key_hit(w, 265) { none_from(w, 266) } else { at_most_one_from(w, 266) },
        key_hit(w, 266) == (w & 0xfff09830 == 0xc1d00800),
        none_from(w, 266) == (!key_hit(w, 266) && none_from(w, 267)),
        at_most_one_from(w, 266) == if key_hit(w, 266) { none_from(w, 267) } else { at_most_one_from(w, 267) },
        key_hit(w, 267) == (w & 0xfff09830 == 0xc1d00810),
        none_from(w, 267) == (!key_hit(w, 267) && none_from(w, 268)),
        at_most_one_from(w, 267) == if key_hit(w, 267) { none_from(w, 268) } else { at_most_one_from(w, 268) },
        key_hit(w, 268) == (w & 0xffe19c38 == 0xc1e01400),
        none_from(w, 268) == (!key_hit(w, 268) && none_from(w, 269)),
        at_most_one_from(w, 268) == if key_hit(w, 268) { none_from(w, 269) } else { at_most_one_from(w, 269) },
        key_hit(w, 269) == (w & 0xfff09838 == 0xc1d00008),
        none_from(w, 269) == (!key_hit(w, 269) && none_from(w, 270)),
        at_most_one_from(w, 269) == if key_hit(w, 269) { none_from(w, 270) } else { at_most_one_from(w, 270) },
        key_hit(w, 270) == (w & 0xfff09c18 == 0xc1601400),
        none_from(w, 270) == (!key_hit(w, 270) && none_from(w, 271)),
        at_most_one_from(w, 270) == if key_hit(w, 270) { none_from(w, 271) } else { at_most_one_from(w, 271) },
        key_hit(w, 271) == (w & 0xffe39c78 == 0xc1e11400),
        none_from(w, 271) == (!key_hit(w, 271) && none_from(w, 272)),
        at_most_one_from(w, 271) == if key_hit(w, 271) { none_from(w, 272) } else { at_most_one_from(w, 272) },
        key_hit(w, 272) == (w & 0xfff09878 == 0xc1d08008),
        none_from(w, 272) == (!key_hit(w, 272) && none_from(w, 273)),
        at_most_one_from(w, 272) == if key_hit(w, 272) { none_from(w, 273) } else { at_most_one_from(w, 273) },
        key_hit(w, 273) == (w & 0xfff09c18 == 0xc1701400),
        none_from(w, 273) == (!key_hit(w, 273) && none_from(w, 274)),
        at_most_one_from(w, 273) == if key_hit(w, 273) { none_from(w, 274) } else { at_most_one_from(w, 274) },
        key_hit(w, 274) == (w & 0xffe19c38 == 0xc1a01400),
        none_from(w, 274) == (!key_hit(w, 274) && none_from(w, 275)),
        at_most_one_from(w, 274) == if key_hit(w, 274) { none_from(w, 275) } else { at_most_one_from(w, 275) },
        key_hit(w, 275) == (w & 0xfff09038 == 0xc1501020),
        none_from(w, 275) == (!key_hit(w, 275) && none_from(w, 276)),
        at_most_one_from(w, 275) == if key_hit(w, 275) { none_from(w, 276) } else { at_most_one_from(w, 276) },
        key_hit(w, 276) == (w & 0xfff09c18 == 0xc1201400),
        none_from(w, 276) == (!key_hit(w, 276) && none_from(w, 277)),
        at_most_one_from(w, 276) == if key_hit(w, 276) { none_from(w, 277) } else { at_most_one_from(w, 277) },
        key_hit(w, 277) == (w & 0xffe39c78 == 0xc1a11400),
        none_from(w, 277) == (!key_hit(w, 277) && none_from(w, 278)),
        at_most_one_from(w, 277) == if key_hit(w, 277) { none_from(w, 278) } else { at_most_one_from(w, 278) },
        key_hit(w, 278) == (w & 0xfff09078 == 0xc1509020),
        none_from(w, 278) == (!key_hit(w, 278) && none_from(w, 279)),
        at_most_one_from(w, 278) == if key_hit(w, 278) { none_from(w, 279) } else { at_most_one_from(w, 279) },
        key_hit(w, 279) == (w & 0xfff09c18 == 0xc1301400),
        none_from(w, 279) == (!key_hit(w, 279) && none_from(w, 280)),
        at_most_one_from(w, 279) == if key_hit(w, 279) { none_from(w, 280) } else { at_most_one_from(w, 280) },
        key_hit(w, 280) == (w & 0xffe19c38 == 0xc1e01408),
        none_from(w, 280) == (!key_hit(w, 280) && none_from(w, 281)),
        at_most_one_from(w, 280) == if key_hit(w, 280) { none_from(w, 281) } else { at_most_one_from(w, 281) },
        key_hit(w, 281) == (w & 0xfff09038 == 0xc1501000),
        none_from(w, 281) == (!key_hit(w, 281) && none_from(w, 282)),
        at_most_one_from(w, 281) == if key_hit(w, 281) { none_from(w, 282) } else { at_most_one_from(w, 282) },
        key_hit(w, 282) == (w & 0xfff09c18 == 0xc1601408),
        none_from(w, 282) == (!key_hit(w, 282) && none_from(w, 283)),
        at_most_one_from(w, 282) == if key_hit(w, 282) { none_from(w, 283) } else { at_most_one_from(w, 283) },
        key_hit(w, 283) == (w & 0xffe39c78 == 0xc1e11408),
        none_from(w, 283) == (!key_hit(w, 283) && none_from(w, 284)),
        at_most_one_from(w, 283) == if key_hit(w, 283) { none_from(w, 284) } else { at_most_one_from(w, 284) },
        key_hit(w, 284) == (w & 0xfff09078 == 0xc1509000),
        none_from(w, 284) == (!key_hit(w, 284) && none_from(w, 285)),
        at_most_one_from(w, 284) == if key_hit(w, 284) { none_from(w, 285) } else { at_most_one_from(w, 285) },
        key_hit(w, 285) == (w & 0xfff09c18 == 0xc1701408),
        none_from(w, 285) == (!key_hit(w, 285) && none_from(w, 286)),
        at_most_one_from(w, 285) == if key_hit(w, 285) { none_from(w, 286) } else { at_most_one_from(w, 286) },
        key_hit(w, 286) == (w & 0xffe19c38 == 0xc1e01818),
        none_from(w, 286) == (!key_hit(w, 286) && none_from(w, 287)),
        at_most_one_from(w, 286) == if key_hit(w, 286) { none_from(w, 287) } else { at_most_one_from(w, 287) },
        key_hit(w, 287) == (w & 0xffff9c38 == 0xc1e01c18),
        none_from(w, 287) == (!key_hit(w, 287) && none_from(w, 288)),
        at_most_one_from(w, 287) == if key_hit(w, 287) { none_from(w, 288) } else { at_most_one_from(w, 288) },
{
    reveal(key_hit);
    reveal(none_from);
    reveal(at_most_one_from);
}

proof fn lemma_keys_unfold_12(w: u32)
    ensures
        key_hit(w, 288) == (w & 0xfff09c18 == 0xc1601818),
        none_from(w, 288) == (!key_hit(w, 288) && none_from(w, 289)),
        at_most_one_from(w, 288) == if key_hit(w, 288) { none_from(w, 289) } else { at_most_one_from(w, 289) },
        key_hit(w, 289) == (w & 0xffe39c78 == 0xc1e11818),
        none_from(w, 289) == (!key_hit(w, 289) && none_from(w, 290)),
        at_most_one_from(w, 289) == if key_hit(w, 289) { none_from(w, 290) } else { at_most_one_from(w, 290) },
        key_hit(w, 290) == (w & 0xffff9c78 == 0xc1e11c18),
        none_from(w, 290) == (!key_hit(w, 290) && none_from(w, 291)),
        at_most_one_from(w, 290) == if key_hit(w, 290) { none_from(w, 291) } else { at_most_one_from(w, 291) },
        key_hit(w, 291) == (w & 0xfff09c18 == 0xc1701818),
        none_from(w, 291) == (!key_hit(w, 291) && none_from(w, 292)),
        at_most_one_from(w, 291) == if key_hit(w, 291) { none_from(w, 292) } else { at_most_one_from(w, 292) },
        key_hit(w, 292) == (w & 0xffe19c38 == 0xc1a01818),
        none_from(w, 292) == (!key_hit(w, 292) && none_from(w, 293)),
        at_most_one_from(w, 292) == if key_hit(w, 292) { none_from(w, 293) } else { at_most_one_from(w, 293) },
        key_hit(w, 293) == (w & 0xffff9c38 == 0xc1a01c18),
        none_from(w, 293) == (!key_hit(w, 293) && none_from(w, 294)),
        at_most_one_from(w, 293) == if key_hit(w, 293) { none_from(w, 294) } else { at_most_one_from(w, 294) },
        key_hit(w, 294) == (w & 0xfff09c18 == 0xc1201818),
        none_from(w, 294) == (!key_hit(w, 294) && none_from(w, 295)),
        at_most_one_from(w, 294) == if key_hit(w, 294) { none_from(w, 295) } else { at_most_one_from(w, 295) },
        key_hit(w, 295) == (w & 0xffe39c78 == 0xc1a11818),
        none_from(w, 295) == (!key_hit(w, 295) && none_from(w, 296)),
        at_most_one_from(w, 295) == if key_hit(w, 295) { none_from(w, 296) } else { at_most_one_from(w, 296) },
        key_hit(w, 296) == (w & 0xffff9c78 == 0xc1a11c18),
        none_from(w, 296) == (!key_hit(w, 296) && none_from(w, 297)),
        at_most_one_from(w, 296) == if key_hit(w, 296) { none_from(w, 297) } else { at_most_one_from(w, 297) },
        key_hit(w, 297) == (w & 0xfff09c18 == 0xc1301818),
        none_from(w, 297) == (!key_hit(w, 297) && none_from(w, 298)),
        at_most_one_from(w, 297) == if key_hit(w, 297) { none_from(w, 298) } else { at_most_one_from(w, 298) },
        key_hit(w, 298) == (w & 0xfff09038 == 0xc1501038),
        none_from(w, 298) == (!key_hit(w, 298) && none_from(w, 299)),
        at_most_one_from(w, 298) == if key_hit(w, 298) { none_from(w, 299) } else { at_most_one_from(w, 299) },
        key_hit(w, 299) == (w & 0xfff09c18 == 0xc1201418),
        none_from(w, 299) == (!key_hit(w, 299) && none_from(w, 300)),
        at_most_one_from(w, 299) == if key_hit(w, 299) { none_from(w, 300) } else { at_most_one_from(w, 300) },
        key_hit(w, 300) == (w & 0xfff09078 == 0xc1509038),
        none_from(w, 300) == (!key_hit(w, 300) && none_from(w, 301)),
        at_most_one_from(w, 300) == if key_hit(w, 300) { none_from(w, 301) } else { at_most_one_from(w, 301) },
        key_hit(w, 301) == (w & 0xfff09c18 == 0xc1301418),
        none_from(w, 301) == (!key_hit(w, 301) && none_from(w, 302)),
        at_most_one_from(w, 301) == if key_hit(w, 301) { none_from(w, 302) } else { at_most_one_from(w, 302) },
        key_hit(w, 302) == (w & 0xfff09078 == 0xc1508038),
        none_from(w, 302) == (!key_hit(w, 302) && none_from(w, 303)),
        at_most_one_from(w, 302) == if key_hit(w, 302) { none_from(w, 303) } else { at_most_one_from(w, 303) },
        key_hit(w, 303) == (w & 0xfff09878 == 0xc1d08808),
        none_from(w, 303) == (!key_hit(w, 303) && none_from(w, 304)),
        at_most_one_from(w, 303) == if key_hit(w, 303) { none_from(w, 304) } else { at_most_one_from(w, 304) },
        key_hit(w, 304) == (w & 0xfff09038 == 0xc1500020),
        none_from(w, 304) == (!key_hit(w, 304) && none_from(w, 305)),
        at_most_one_from(w, 304) == if key_hit(w, 304) { none_from(w, 305) } else { at_most_one_from(w, 305) },
        key_hit(w, 305) == (w & 0xffe19c38 == 0xc1e01410),
        none_from(w, 305) == (!key_hit(w, 305) && none_from(w, 306)),
        at_most_one_from(w, 305) == if key_hit(w, 305) { none_from(w, 306) } else { at_most_one_from(w, 306) },
        key_hit(w, 306) == (w & 0xfff09838 == 0xc1d00018),
        none_from(w, 306) == (!key_hit(w, 306) && none_from(w, 307)),
        at_most_one_from(w, 306) == if key_hit(w, 306) { none_from(w, 307) } else { at_most_one_from(w, 307) },
        key_hit(w, 307) == (w & 0xfff09c18 == 0xc1601410),
        none_from(w, 307) == (!key_hit(w, 307) && none_from(w, 308)),
        at_most_one_from(w, 307) == if key_hit(w, 307) { none_from(w, 308) } else { at_most_one_from(w, 308) },
        key_hit(w, 308) == (w & 0xffe39c78 == 0xc1e11410),
        none_from(w, 308) == (!key_hit(w, 308) && none_from(w, 309)),
        at_most_one_from(w, 308) == if key_hit(w, 308) { none_from(w, 309) } else { at_most_one_from(w, 309) },
        key_hit(w, 309) == (w & 0xfff09878 == 0xc1d08018),
        none_from(w, 309) == (!key_hit(w, 309) && none_from(w, 310)),
        at_most_one_from(w, 309) == if key_hit(w, 309) { none_from(w, 310) } else { at_most_one_from(w, 310) },
        key_hit(w, 310) == (w & 0xfff09c18 == 0xc1701410),
        none_from(w, 310) == (!key_hit(w, 310) && none_from(w, 311)),
        at_most_one_from(w, 310) == if key_hit(w, 310) { none_from(w, 311) } else { at_most_one_from(w, 311) },
        key_hit(w, 311) == (w & 0xffe19c38 == 0xc1a01410),
        none_from(w, 311) == (!key_hit(w, 311) && none_from(w, 312)),
        at_most_one_from(w, 311) == if key_hit(w, 311) { none_from(w, 312) } else { at_most_one_from(w, 312) },
{
    reveal(key_hit);
    reveal(none_from);
    reveal(at_most_one_from);
}

proof fn lemma_keys_unfold_13(w: u32)
    ensures
        key_hit(w, 312) == (w & 0xfff09038 == 0xc1501030),
        none_from(w, 312) == (!key_hit(w, 312) && none_from(w, 313)),
        at_most_one_from(w, 312) == if key_hit(w, 312) { none_from(w, 313) } else { at_most_one_from(w, 313) },
        key_hit(w, 313) == (w & 0xfff09c18 == 0xc1201410),
        none_from(w, 313) == (!key_hit(w, 313) && none_from(w, 314)),
        at_most_one_from(w, 313) == if key_hit(w, 313) { none_from(w, 314) } else { at_most_one_from(w, 314) },
        key_hit(w, 314) == (w & 0xffe39c78 == 0xc1a11410),
        none_from(w, 314) == (!key_hit(w, 314) && none_from(w, 315)),
        at_most_one_from(w, 314) == if key_hit(w, 314) { none_from(w, 315) } else { at_most_one_from(w, 315) },
        key_hit(w, 315) == (w & 0xfff09078 == 0xc1509030),
        none_from(w, 315) == (!key_hit(w, 315) && none_from(w, 316)),
        at_most_one_from(w, 315) == if key_hit(w, 315) { none_from(w, 316) } else { at_most_one_from(w, 316) },
        key_hit(w, 316) == (w & 0xfff09c18 == 0xc1301410),
        none_from(w, 316) == (!key_hit(w, 316) && none_from(w, 317)),
        at_most_one_from(w, 316) == if key_hit(w, 316) { none_from(w, 317) } else { at_most_one_from(w, 317) },
        key_hit(w, 317) == (w & 0xffe19c38 == 0xc1e01418),
        none_from(w, 317) == (!key_hit(w, 317) && none_from(w, 318)),
        at_most_one_from(w, 317) == if key_hit(w, 317) { none_from(w, 318) } else { at_most_one_from(w, 318) },
        key_hit(w, 318) == (w & 0xfff09038 == 0xc1501010),
        none_from(w, 318) == (!key_hit(w, 318) && none_from(w, 319)),
        at_most_one_from(w, 318) == if key_hit(w, 318) { none_from(w, 319) } else { at_most_one_from(w, 319) },
        key_hit(w, 319) == (w & 0xfff09c18 == 0xc1601418),
        none_from(w, 319) == (!key_hit(w, 319) && none_from(w, 320)),
        at_most_one_from(w, 319) == if key_hit(w, 319) { none_from(w, 320) } else { at_most_one_from(w, 320) },
        key_hit(w, 320) == (w & 0xffe39c78 == 0xc1e11418),
        none_from(w, 320) == (!key_hit(w, 320) && none_from(w, 321)),
        at_most_one_from(w, 320) == if key_hit(w, 320) { none_from(w, 321) } else { at_most_one_from(w, 321) },
        key_hit(w, 321) == (w & 0xfff09078 == 0xc1509010),
        none_from(w, 321) == (!key_hit(w, 321) && none_from(w, 322)),
        at_most_one_from(w, 321) == if key_hit(w, 321) { none_from(w, 322) } else { at_most_one_from(w, 322) },
        key_hit(w, 322) == (w & 0xfff09c18 == 0xc1701418),
        none_from(w, 322) == (!key_hit(w, 322) && none_from(w, 323)),
        at_most_one_from(w, 322) == if key_hit(w, 322) { none_from(w, 323) } else { at_most_one_from(w, 323) },
        key_hit(w, 323) == (w & 0xffe19c38 == 0xc1a01408),
        none_from(w, 323) == (!key_hit(w, 323) && none_from(w, 324)),
        at_most_one_from(w, 323) == if key_hit(w, 323) { none_from(w, 324) } else { at_most_one_from(w, 324) },
        key_hit(w, 324) == (w & 0xfff09038 == 0xc1501028),
        none_from(w, 324) == (!key_hit(w, 324) && none_from(w, 325)),
        at_most_one_from(w, 324) == if key_hit(w, 324) { none_from(w, 325) } else { at_most_one_from(w, 325) },
        key_hit(w, 325) == (w & 0xfff09c18 == 0xc1201408),
        none_from(w, 325) == (!key_hit(w, 325) && none_from(w, 326)),
        at_most_one_from(w, 325) == if key_hit(w, 325) { none_from(w, 326) } else { at_most_one_from(w, 326) },
        key_hit(w, 326) == (w & 0xffe39c78 == 0xc1a11408),
        none_from(w, 326) == (!key_hit(w, 326) && none_from(w, 327)),
        at_most_one_from(w, 326) == if key_hit(w, 326) { none_from(w, 327) } else { at_most_one_from(w, 327) },
        key_hit(w, 327) == (w & 0xfff09078 == 0xc1509028),
        none_from(w, 327) == (!key_hit(w, 327) && none_from(w, 328)),
        at_most_one_from(w, 327) == if key_hit(w, 327) { none_from(w, 328) } else { at_most_one_from(w, 328) },
        key_hit(w, 328) == (w & 0xfff09c18 == 0xc1301408),
        none_from(w, 328) == (!key_hit(w, 328) && none_from(w, 329)),
        at_most_one_from(w, 328) == if key_hit(w, 328) { none_from(w, 329) } else { at_most_one_from(w, 329) },
        key_hit(w, 329) == (w & 0xfff09078 == 0xc1508028),
        none_from(w, 329) == (!key_hit(w, 329) && none_from(w, 330)),
        at_most_one_from(w, 329) == if key_hit(w, 329) { none_from(w, 330) } else { at_most_one_from(w, 330) },
        key_hit(w, 330) == (w & 0xfff09878 == 0xc1d08818),
        none_from(w, 330) == (!key_hit(w, 330) && none_from(w, 331)),
        at_most_one_from(w, 330) == if key_hit(w, 330) { none_from(w, 331) } else { at_most_one_from(w, 331) },
        key_hit(w, 331) == (w & 0xfff09038 == 0xc1500030),
        none_from(w, 331) == (!key_hit(w, 331) && none_from(w, 332)),
        at_most_one_from(w, 331) == if key_hit(w, 331) { none_from(w, 332) } else { at_most_one_from(w, 332) },
        key_hit(w, 332) == (w & 0xffe19c38 == 0xc1a01030),
        none_from(w, 332) == (!key_hit(w, 332) && none_from(w, 333)),
        at_most_one_from(w, 332) == if key_hit(w, 332) { none_from(w, 333) } else { at_most_one_from(w, 333) },
        key_hit(w, 333) == (w & 0xfff09038 == 0xc1500038),
        none_from(w, 333) == (!key_hit(w, 333) && none_from(w, 334)),
        at_most_one_from(w, 333) == if key_hit(w, 333) { none_from(w, 334) } else { at_most_one_from(w, 334) },
        key_hit(w, 334) == (w & 0xfff09c18 == 0xc1201018),
        none_from(w, 334) == (!key_hit(w, 334) && none_from(w, 335)),
        at_most_one_from(w, 334) == if key_hit(w, 334) { none_from(w, 335) } else { at_most_one_from(w, 335) },
        key_hit(w, 335) == (w & 0xffe39c78 == 0xc1a11030),
        none_from(w, 335) == (!key_hit(w, 335) && none_from(w, 336)),
        at_most_one_from(w, 335) == if key_hit(w, 335) { none_from(w, 336) } else { at_most_one_from(w, 336) },
{
    reveal(key_hit);
    reveal(none_from);
    reveal(at_most_one_from);
}

proof fn lemma_keys_unfold_14(w: u32)
    ensures
        key_hit(w, 336) == (w & 0xfff09078 == 0xc1508008),
        none_from(w, 336) == (!key_hit(w, 336) && none_from(w, 337)),
        at_most_one_from(w, 336) == if key_hit(w, 336) { none_from(w, 337) } else { at_most_one_from(w, 337) },
        key_hit(w, 337) == (w & 0xfff09c18 == 0xc1301018),
        none_from(w, 337) == (!key_hit(w, 337) && none_from(w, 338)),
        at_most_one_from(w, 337) == if key_hit(w, 337) { none_from(w, 338) } else { at_most_one_from(w, 338) },
        key_hit(w, 338) == (w & 0xfff09030 == 0xc1d01020),
        none_from(w, 338) == (!key_hit(w, 338) && none_from(w, 339)),
        at_most_one_from(w, 338) == if key_hit(w, 338) { none_from(w, 339) } else { at_most_one_from(w, 339) },
        key_hit(w, 339) == (w & 0xfff09078 == 0xc1508020),
        none_from(w, 339) == (!key_hit(w, 339) && none_from(w, 340)),
        at_most_one_from(w, 339) == if key_hit(w, 339) { none_from(w, 340) } else { at_most_one_from(w, 340) },
        key_hit(w, 340) == (w & 0xfff09078 == 0xc1508030),
        none_from(w, 340) == (!key_hit(w, 340) && none_from(w, 341)),
        at_most_one_from(w, 340) == if key_hit(w, 340) { none_from(w, 341) } else { at_most_one_from(w, 341) },
        key_hit(w, 341) == (w & 0xff21e021 == 0xc1208000),
        none_from(w, 341) == (!key_hit(w, 341) && none_from(w, 342)),
        at_most_one_from(w, 341) == if key_hit(w, 341) { none_from(w, 342) } else { at_most_one_from(w, 342) },
        key_hit(w, 342) == (w & 0xff23e063 == 0xc1218000),
        none_from(w, 342) == (!key_hit(w, 342) && none_from(w, 343)),
        at_most_one_from(w, 342) == if key_hit(w, 342) { none_from(w, 343) } else { at_most_one_from(w, 343) },
        key_hit(w, 343) == (w & 0xff20fc01 == 0xc120c400),
        none_from(w, 343) == (!key_hit(w, 343) && none_from(w, 344)),
        at_most_one_from(w, 343) == if key_hit(w, 343) { none_from(w, 344) } else { at_most_one_from(w, 344) },
        key_hit(w, 344) == (w & 0xff20fc01 == 0xc120c401),
        none_from(w, 344) == (!key_hit(w, 344) && none_from(w, 345)),
        at_most_one_from(w, 344) == if key_hit(w, 344) { none_from(w, 345) } else { at_most_one_from(w, 345) },
        key_hit(w, 345) == (w & 0xff20fc03 == 0xc120cc00),
        none_from(w, 345) == (!key_hit(w, 345) && none_from(w, 346)),
        at_most_one_from(w, 345) == if key_hit(w, 345) { none_from(w, 346) } else { at_most_one_from(w, 346) },
        key_hit(w, 346) == (w & 0xff20fc03 == 0xc120cc01),
        none_from(w, 346) == (!key_hit(w, 346) && none_from(w, 347)),
        at_most_one_from(w, 346) == if key_hit(w, 346) { none_from(w, 347) } else { at_most_one_from(w, 347) },
        key_hit(w, 347) == (w & 0xffe0fc01 == 0xc120c000),
        none_from(w, 347) == (!key_hit(w, 347) && none_from(w, 348)),
        at_most_one_from(w, 347) == if key_hit(w, 347) { none_from(w, 348) } else { at_most_one_from(w, 348) },
        key_hit(w, 348) == (w & 0xffe0fc03 == 0xc120c800),
        none_from(w, 348) == (!key_hit(w, 348) && none_from(w, 349)),
        at_most_one_from(w, 348) == if key_hit(w, 348) { none_from(w, 349) } else { at_most_one_from(w, 349) },
        key_hit(w, 349) == (w & 0xff60fc01 == 0xc160c000),
        none_from(w, 349) == (!key_hit(w, 349) && none_from(w, 350)),
        at_most_one_from(w, 349) == if key_hit(w, 349) { none_from(w, 350) } else { at_most_one_from(w, 350) },
        key_hit(w, 350) == (w & 0xffe0fc01 == 0xc1a0c000),
        none_from(w, 350) == (!key_hit(w, 350) && none_from(w, 351)),
        at_most_one_from(w, 350) == if key_hit(w, 350) { none_from(w, 351) } else { at_most_one_from(w, 351) },
        key_hit(w, 351) == (w & 0xff60fc03 == 0xc160c800),
        none_from(w, 351) == (!key_hit(w, 351) && none_from(w, 352)),
        at_most_one_from(w, 351) == if key_hit(w, 351) { none_from(w, 352) } else { at_most_one_from(w, 352) },
        key_hit(w, 352) == (w & 0xffe0fc03 == 0xc1a0c800),
        none_from(w, 352) == (!key_hit(w, 352) && none_from(w, 353)),
        at_most_one_from(w, 352) == if key_hit(w, 352) { none_from(w, 353) } else { at_most_one_from(w, 353) },
        key_hit(w, 353) == (w & 0xff20f801 == 0xc120d000),
        none_from(w, 353) == (!key_hit(w, 353) && none_from(w, 354)),
        at_most_one_from(w, 353) == if key_hit(w, 353) { none_from(w, 354) } else { at_most_one_from(w, 354) },
        key_hit(w, 354) == (w & 0xff20f801 == 0xc120d001),
        none_from(w, 354) == (!key_hit(w, 354) && none_from(w, 355)),
        at_most_one_from(w, 354) == if key_hit(w, 354) { none_from(w, 355) } else { at_most_one_from(w, 355) },
        key_hit(w, 355) == (w & 0xff3efc63 == 0xc136e000),
        none_from(w, 355) == (!key_hit(w, 355) && none_from(w, 356)),
        at_most_one_from(w, 355) == if key_hit(w, 355) { none_from(w, 356) } else { at_most_one_from(w, 356) },
        key_hit(w, 356) == (w & 0xff3efc63 == 0xc136e002),
        none_from(w, 356) == (!key_hit(w, 356) && none_from(w, 357)),
        at_most_one_from(w, 356) == if key_hit(w, 356) { none_from(w, 357) } else { at_most_one_from(w, 357) },
        key_hit(w, 357) == (w & 0xffe1fc21 == 0xc120e400),
        none_from(w, 357) == (!key_hit(w, 357) && none_from(w, 358)),
        at_most_one_from(w, 357) == if key_hit(w, 357) { none_from(w, 358) } else { at_most_one_from(w, 358) },
        key_hit(w, 358) == (w & 0xffe3fc63 == 0xc121e400),
        none_from(w, 358) == (!key_hit(w, 358) && none_from(w, 359)),
        at_most_one_from(w, 358) == if key_hit(w, 358) { none_from(w, 359) } else { at_most_one_from(w, 359) },
        key_hit(w, 359) == (w & 0xffe1fc21 == 0xc120e800),
        none_from(w, 359) == (!key_hit(w, 359) && none_from(w, 360)),
        at_most_one_from(w, 359) == if key_hit(w, 359) { none_from(w, 360) } else { at_most_one_from(w, 360) },
{
    reveal(key_hit);
    reveal(none_from);
    reveal(at_most_one_from);
}

proof fn lemma_keys_unfold_15(w: u32)
    ensures
        key_hit(w, 360) == (w & 0xffe1fc63 == 0xc121e800),
        none_from(w, 360) == (!key_hit(w, 360) && none_from(w, 361)),
        at_most_one_from(w, 360) == if key_hit(w, 360) { none_from(w, 361) } else { at_most_one_from(w, 361) },
        key_hit(w, 361) == (w & 0xff61fc21 == 0xc160e400),
        none_from(w, 361) == (!key_hit(w, 361) && none_from(w, 362)),
        at_most_one_from(w, 361) == if key_hit(w, 361) { none_from(w, 362) } else { at_most_one_from(w, 362) },
        key_hit(w, 362) == (w & 0xffe1fc21 == 0xc1a0e400),
        none_from(w, 362) == (!key_hit(w, 362) && none_from(w, 363)),
        at_most_one_from(w, 362) == if key_hit(w, 362) { none_from(w, 363) } else { at_most_one_from(w, 363) },
        key_hit(w, 363) == (w & 0xff63fc63 == 0xc161e400),
        none_from(w, 363) == (!key_hit(w, 363) && none_from(w, 364)),
        at_most_one_from(w, 363) == if key_hit(w, 363) { none_from(w, 364) } else { at_most_one_from(w, 364) },
        key_hit(w, 364) == (w & 0xffe3fc63 == 0xc1a1e400),
        none_from(w, 364) == (!key_hit(w, 364) && none_from(w, 365)),
        at_most_one_from(w, 364) == if key_hit(w, 364) { none_from(w, 365) } else { at_most_one_from(w, 365) },
        key_hit(w, 365) == (w & 0xff21ffe1 == 0xc120b100),
        none_from(w, 365) == (!key_hit(w, 365) && none_from(w, 366)),
        at_most_one_from(w, 365) == if key_hit(w, 365) { none_from(w, 366) } else { at_most_one_from(w, 366) },
        key_hit(w, 366) == (w & 0xff21ffe1 == 0xc120b101),
        none_from(w, 366) == (!key_hit(w, 366) && none_from(w, 367)),
        at_most_one_from(w, 366) == if key_hit(w, 366) { none_from(w, 367) } else { at_most_one_from(w, 367) },
        key_hit(w, 367) == (w & 0xff21ffe1 == 0xc120b120),
        none_from(w, 367) == (!key_hit(w, 367) && none_from(w, 368)),
        at_most_one_from(w, 367) == if key_hit(w, 367) { none_from(w, 368) } else { at_most_one_from(w, 368) },
        key_hit(w, 368) == (w & 0xff21ffe1 == 0xc120b121),
        none_from(w, 368) == (!key_hit(w, 368) && none_from(w, 369)),
        at_most_one_from(w, 368) == if key_hit(w, 368) { none_from(w, 369) } else { at_most_one_from(w, 369) },
        key_hit(w, 369) == (w & 0xff23ffe3 == 0xc120b900),
        none_from(w, 369) == (!key_hit(w, 369) && none_from(w, 370)),
        at_most_one_from(w, 369) == if key_hit(w, 369) { none_from(w, 370) } else { at_most_one_from(w, 370) },
        key_hit(w, 370) == (w & 0xff23ffe3 == 0xc120b901),
        none_from(w, 370) == (!key_hit(w, 370) && none_from(w, 371)),
        at_most_one_from(w, 370) == if key_hit(w, 370) { none_from(w, 371) } else { at_most_one_from(w, 371) },
        key_hit(w, 371) == (w & 0xff23ffe3 == 0xc120b920),
        none_from(w, 371) == (!key_hit(w, 371) && none_from(w, 372)),
        at_most_one_from(w, 371) == if key_hit(w, 371) { none_from(w, 372) } else { at_most_one_from(w, 372) },
        key_hit(w, 372) == (w & 0xff23ffe3 == 0xc120b921),
        none_from(w, 372) == (!key_hit(w, 372) && none_from(w, 373)),
        at_most_one_from(w, 372) == if key_hit(w, 372) { none_from(w, 373) } else { at_most_one_from(w, 373) },
        key_hit(w, 373) == (w & 0xff61fc21 == 0xc160e800),
        none_from(w, 373) == (!key_hit(w, 373) && none_from(w, 374)),
        at_most_one_from(w, 373) == if key_hit(w, 373) { none_from(w, 374) } else { at_most_one_from(w, 374) },
        key_hit(w, 374) == (w & 0xffe1fc21 == 0xc1a0e800),
        none_from(w, 374) == (!key_hit(w, 374) && none_from(w, 375)),
        at_most_one_from(w, 374) == if key_hit(w, 374) { none_from(w, 375) } else { at_most_one_from(w, 375) },
        key_hit(w, 375) == (w & 0xff61fc63 == 0xc161e800),
        none_from(w, 375) == (!key_hit(w, 375) && none_from(w, 376)),
        at_most_one_from(w, 375) == if key_hit(w, 375) { none_from(w, 376) } else { at_most_one_from(w, 376) },
        key_hit(w, 376) == (w & 0xffe1fc63 == 0xc1a1e800),
        none_from(w, 376) == (!key_hit(w, 376) && none_from(w, 377)),
        at_most_one_from(w, 376) == if key_hit(w, 376) { none_from(w, 377) } else { at_most_one_from(w, 377) },
        none_from(w, 377),
        at_most_one_from(w, 377),
{
    reveal(key_hit);
    reveal(none_from);
    reveal(at_most_one_from);
}

/// At most one key of the two tables matches any word.
proof fn lemma_at_most_one(w: u32)
    ensures
        at_most_one_from(w, 0),
{
    lemma_literal_exclusive(w);
    lemma_keys_unfold_0(w);
    lemma_keys_unfold_1(w);
    lemma_keys_unfold_2(w);
    lemma_keys_unfold_3(w);
    lemma_keys_unfold_4(w);
    lemma_keys_unfold_5(w);
    lemma_keys_unfold_6(w);
    lemma_keys_unfold_7(w);
    lemma_keys_unfold_8(w);
    lemma_keys_unfold_9(w);
    lemma_keys_unfold_10(w);
    lemma_keys_unfold_11(w);
    lemma_keys_unfold_12(w);
    lemma_keys_unfold_13(w);
    lemma_keys_unfold_14(w);
    lemma_keys_unfold_15(w);
}

proof fn lemma_none_from(w: u32, k: int, j: int)
    requires
        none_from(w, k),
        0 <= k <= j,
    ensures
        !key_hit(w, j),
    decreases j - k,
{
    reveal(none_from);
    reveal(key_hit);
    if k < keys_len() && k < j {
        lemma_none_from(w, k + 1, j);
    }
}

proof fn lemma_at_most_one_from(w: u32, k: int, i: int, j: int)
    requires
        at_most_one_from(w, k),
        0 <= k <= i < j,
        key_hit(w, i),
    ensures
        !key_hit(w, j),
    decreases i - k,
{
    reveal(at_most_one_from);
    reveal(key_hit);
    if j < keys_len() {
        if key_hit(w, k) {
            if k == i {
                lemma_none_from(w, k + 1, j);
            } else {
                lemma_none_from(w, k + 1, i);
            }
        } else {
            lemma_at_most_one_from(w, k + 1, i, j);
        }
    }
}

/// Two keys of the two tables never both match a word.
proof fn lemma_keys_exclusive(w: u32, i: int, j: int)
    requires
        0 <= i < j,
        key_hit(w, i),
    ensures
        !key_hit(w, j),
{
    lemma_at_most_one(w);
    lemma_at_most_one_from(w, 0, i, j);
}

/// No word matches two rows of the multiply table.
pub proof fn lemma_mul_keys_disjoint(word: u32, i: int, j: int)
    requires
        i != j,
    ensures
        !(mul_hit(word, i) && mul_hit(word, j)),
{
    reveal(key_hit);
    if mul_hit(word, i) && mul_hit(word, j) {
        if i < j {
            lemma_keys_exclusive(word, i, j);
        } else {
            lemma_keys_exclusive(word, j, i);
        }
    }
}

/// No word matches two rows of the multi-vector ALU table.
pub proof fn lemma_alu_keys_disjoint(word: u32, i: int, j: int)
    requires
        i != j,
    ensures
        !(alu_hit(word, i) && alu_hit(word, j)),
{
    reveal(key_hit);
    if alu_hit(word, i) && alu_hit(word, j) {
        if i < j {
            lemma_keys_exclusive(word, i + SME2_FORMS_LEN, j + SME2_FORMS_LEN);
        } else {
            lemma_keys_exclusive(word, j + SME2_FORMS_LEN, i + SME2_FORMS_LEN);
        }
    }
}

/// No word matches both a row of the multiply table and a row of the
/// multi-vector ALU table.
pub proof fn lemma_tables_keys_disjoint(word: u32, i: int, j: int)
    ensures
        !(mul_hit(word, i) && alu_hit(word, j)),
{
    reveal(key_hit);
    if mul_hit(word, i) && alu_hit(word, j) {
        lemma_keys_exclusive(word, i, j + SME2_FORMS_LEN);
    }
}

proof fn lemma_first_match_from(word: u32, k: int, i: int)
    requires
        0 <= k <= i,
        mul_hit(word, i),
    ensures
        first_match(word, k as usize) == sme2_row(i as usize),
    decreases i - k,
{
    if k < i {
        lemma_mul_keys_disjoint(word, k, i);
        lemma_first_match_from(word, k + 1, i);
    }
}

proof fn lemma_first_match_none(word: u32, k: int)
    requires
        0 <= k <= SME2_FORMS_LEN,
        forall|i: int| k <= i < SME2_FORMS_LEN ==> !#[trigger] mul_hit(word, i),
    ensures
        first_match(word, k as usize) is None,
    decreases SME2_FORMS_LEN - k,
{
    if k < SME2_FORMS_LEN {
        assert(!mul_hit(word, k));
        lemma_first_match_none(word, k + 1);
    }
}

/// The multiply table's lookup gives the row that matches `word`, the only
/// one, or nothing when no row does: the order of the rows does not matter.
pub proof fn lemma_mul_lookup_unique(word: u32)
    ensures
        forall|i: int| #[trigger] mul_hit(word, i) ==> first_match(word, 0) == sme2_row(i as usize),
        (forall|i: int| !#[trigger] mul_hit(word, i)) ==> first_match(word, 0) is None,
{
    assert forall|i: int| #[trigger] mul_hit(word, i) implies first_match(word, 0) == sme2_row(i as usize) by {
        lemma_first_match_from(word, 0, i);
    }
    if forall|i: int| !#[trigger] mul_hit(word, i) {
        lemma_first_match_none(word, 0);
    }
}

proof fn lemma_alu_first_match_from(word: u32, k: int, i: int)
    requires
        0 <= k <= i,
        alu_hit(word, i),
    ensures
        alu_first_match(word, k as usize) == alu_row(i as usize),
    decreases i - k,
{
    if k < i {
        lemma_alu_keys_disjoint(word, k, i);
        lemma_alu_first_match_from(word, k + 1, i);
    }
}

proof fn lemma_alu_first_match_none(word: u32, k: int)
    requires
        0 <= k <= ALU_FORMS_LEN,
        forall|i: int| k <= i < ALU_FORMS_LEN ==> !#[trigger] alu_hit(word, i),
    ensures
        alu_first_match(word, k as usize) is None,
    decreases ALU_FORMS_LEN - k,
{
    if k < ALU_FORMS_LEN {
        assert(!alu_hit(word, k));
        lemma_alu_first_match_none(word, k + 1);
    }
}

/// The multi-vector ALU table's lookup gives the row that matches `word`, the
/// only one, or nothing when no row does: the order of the rows does not
/// matter.
pub proof fn lemma_alu_lookup_unique(word: u32)
    ensures
        forall|i: int| #[trigger] alu_hit(word, i) ==> alu_first_match(word, 0) == alu_row(i as usize),
        (forall|i: int| !#[trigger] alu_hit(word, i)) ==> alu_first_match(word, 0) is None,
{
    assert forall|i: int| #[trigger] alu_hit(word, i) implies alu_first_match(word, 0) == alu_row(i as usize) by {
        lemma_alu_first_match_from(word, 0, i);
    }
    if forall|i: int| !#[trigger] alu_hit(word, i) {
        lemma_alu_first_match_none(word, 0);
    }
}

} // verus!
