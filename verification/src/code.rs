//! Instruction identities (`Code`) and their assembler mnemonics.
use vstd::prelude::*;

verus! {

/// The identity of a decoded instruction: one variant per encoding class.
#[derive(Clone, Copy, PartialEq, Eq, Debug, Structural)]
pub enum Code {
    /// No instruction was decoded.
    Invalid,
    RevdZPZ,
    SmeAddDDV2Gg,
    SmeAddDDV2Go,
    SmeAddDDV2Gs,
    SmeAddDDV4Gg,
    SmeAddDDV4Go,
    SmeAddDDV4Gs,
    SmeAddMVS2,
    SmeAddMVS4,
    SmeAddSSV2Gg,
    SmeAddSSV2Go,
    SmeAddSSV2Gs,
    SmeAddSSV4Gg,
    SmeAddSSV4Go,
    SmeAddSSV4Gs,
    SmeAddha,
    SmeAddva,
    SmeBf1cvtWiden,
    SmeBf1cvtlWiden,
    SmeBf2cvtWiden,
    SmeBf2cvtlWiden,
    SmeBfaddV2Go,
    SmeBfaddV4Go,
    SmeBfclampMV2,
    SmeBfclampMV4,
    SmeBfcvtNarrow,
    SmeBfcvtNarrowFp8,
    SmeBfcvtnNarrowFp,
    SmeBfdotSHV2Gg,
    SmeBfdotSHV2Gi,
    SmeBfdotSHV2Gs,
    SmeBfdotSHV4Gg,
    SmeBfdotSHV4Gi,
    SmeBfdotSHV4Gs,
    SmeBfmaxMV2,
    SmeBfmaxMV4,
    SmeBfmaxMVS2,
    SmeBfmaxMVS4,
    SmeBfmaxnmMV2,
    SmeBfmaxnmMV4,
    SmeBfmaxnmMVS2,
    SmeBfmaxnmMVS4,
    SmeBfminMV2,
    SmeBfminMV4,
    SmeBfminMVS2,
    SmeBfminMVS4,
    SmeBfminnmMV2,
    SmeBfminnmMV4,
    SmeBfminnmMVS2,
    SmeBfminnmMVS4,
    SmeBfmlaHHOV2Gg,
    SmeBfmlaHHOV2Gi,
    SmeBfmlaHHOV2Gs,
    SmeBfmlaHHOV4Gg,
    SmeBfmlaHHOV4Gi,
    SmeBfmlaHHOV4Gs,
    SmeBfmlalSHTSi,
    SmeBfmlalSHTSs,
    SmeBfmlalSHTV2Gg,
    SmeBfmlalSHTV2Gi,
    SmeBfmlalSHTV2Gs,
    SmeBfmlalSHTV4Gg,
    SmeBfmlalSHTV4Gi,
    SmeBfmlalSHTV4Gs,
    SmeBfmlsHHOV2Gg,
    SmeBfmlsHHOV2Gi,
    SmeBfmlsHHOV2Gs,
    SmeBfmlsHHOV4Gg,
    SmeBfmlsHHOV4Gi,
    SmeBfmlsHHOV4Gs,
    SmeBfmlslSHTSi,
    SmeBfmlslSHTSs,
    SmeBfmlslSHTV2Gg,
    SmeBfmlslSHTV2Gi,
    SmeBfmlslSHTV2Gs,
    SmeBfmlslSHTV4Gg,
    SmeBfmlslSHTV4Gi,
    SmeBfmlslSHTV4Gs,
    SmeBfmop4aHh,
    SmeBfmop4aS,
    SmeBfmop4sHh,
    SmeBfmop4sS,
    SmeBfmopa,
    SmeBfmopaH,
    SmeBfmops,
    SmeBfmopsH,
    SmeBfmulMV2,
    SmeBfmulMV4,
    SmeBfmulMVS2,
    SmeBfmulMVS4,
    SmeBfscaleMV2,
    SmeBfscaleMV4,
    SmeBfscaleMVS2,
    SmeBfscaleMVS4,
    SmeBfsubV2Go,
    SmeBfsubV4Go,
    SmeBftmopaHH,
    SmeBftmopaSH,
    SmeBfvdotSHV2Gi,
    SmeBmopaS,
    SmeBmopsS,
    SmeF1cvtWiden,
    SmeF1cvtlWiden,
    SmeF2cvtWiden,
    SmeF2cvtlWiden,
    SmeFaddDDV2Go,
    SmeFaddDDV4Go,
    SmeFaddHHV2Go,
    SmeFaddHHV4Go,
    SmeFaddSSV2Go,
    SmeFaddSSV4Go,
    SmeFamaxMV2,
    SmeFamaxMV4,
    SmeFaminMV2,
    SmeFaminMV4,
    SmeFclampMV2,
    SmeFclampMV4,
    SmeFcvtNarrow,
    SmeFcvtNarrowFp8,
    SmeFcvtWiden,
    SmeFcvtlWiden,
    SmeFcvtnNarrowFp,
    SmeFcvtnNarrowFp8,
    SmeFcvtzs,
    SmeFcvtzu,
    SmeFdotHBV2Gg,
    SmeFdotHBV2Gi,
    SmeFdotHBV2Gs,
    SmeFdotHBV4Gg,
    SmeFdotHBV4Gi,
    SmeFdotHBV4Gs,
    SmeFdotSBV2Gg,
    SmeFdotSBV2Gi,
    SmeFdotSBV2Gs,
    SmeFdotSBV4Gg,
    SmeFdotSBV4Gi,
    SmeFdotSBV4Gs,
    SmeFdotSHV2Gg,
    SmeFdotSHV2Gi,
    SmeFdotSHV2Gs,
    SmeFdotSHV4Gg,
    SmeFdotSHV4Gi,
    SmeFdotSHV4Gs,
    SmeFmaxMV2,
    SmeFmaxMV4,
    SmeFmaxMVS2,
    SmeFmaxMVS4,
    SmeFmaxnmMV2,
    SmeFmaxnmMV4,
    SmeFmaxnmMVS2,
    SmeFmaxnmMVS4,
    SmeFminMV2,
    SmeFminMV4,
    SmeFminMVS2,
    SmeFminMVS4,
    SmeFminnmMV2,
    SmeFminnmMV4,
    SmeFminnmMVS2,
    SmeFminnmMVS4,
    SmeFmlaDDOV2Gg,
    SmeFmlaDDOV2Gi,
    SmeFmlaDDOV2Gs,
    SmeFmlaDDOV4Gg,
    SmeFmlaDDOV4Gi,
    SmeFmlaDDOV4Gs,
    SmeFmlaHHOV2Gg,
    SmeFmlaHHOV2Gi,
    SmeFmlaHHOV2Gs,
    SmeFmlaHHOV4Gg,
    SmeFmlaHHOV4Gi,
    SmeFmlaHHOV4Gs,
    SmeFmlaSSOV2Gg,
    SmeFmlaSSOV2Gi,
    SmeFmlaSSOV2Gs,
    SmeFmlaSSOV4Gg,
    SmeFmlaSSOV4Gi,
    SmeFmlaSSOV4Gs,
    SmeFmlalHBTSi,
    SmeFmlalHBTSs,
    SmeFmlalHBTV2Gg,
    SmeFmlalHBTV2Gi,
    SmeFmlalHBTV2Gs,
    SmeFmlalHBTV4Gg,
    SmeFmlalHBTV4Gi,
    SmeFmlalHBTV4Gs,
    SmeFmlalSHTSi,
    SmeFmlalSHTSs,
    SmeFmlalSHTV2Gg,
    SmeFmlalSHTV2Gi,
    SmeFmlalSHTV2Gs,
    SmeFmlalSHTV4Gg,
    SmeFmlalSHTV4Gi,
    SmeFmlalSHTV4Gs,
    SmeFmlallSBQSi,
    SmeFmlallSBQSs,
    SmeFmlallSBQV2Gg,
    SmeFmlallSBQV2Gi,
    SmeFmlallSBQV2Gs,
    SmeFmlallSBQV4Gg,
    SmeFmlallSBQV4Gi,
    SmeFmlallSBQV4Gs,
    SmeFmlsDDOV2Gg,
    SmeFmlsDDOV2Gi,
    SmeFmlsDDOV2Gs,
    SmeFmlsDDOV4Gg,
    SmeFmlsDDOV4Gi,
    SmeFmlsDDOV4Gs,
    SmeFmlsHHOV2Gg,
    SmeFmlsHHOV2Gi,
    SmeFmlsHHOV2Gs,
    SmeFmlsHHOV4Gg,
    SmeFmlsHHOV4Gi,
    SmeFmlsHHOV4Gs,
    SmeFmlsSSOV2Gg,
    SmeFmlsSSOV2Gi,
    SmeFmlsSSOV2Gs,
    SmeFmlsSSOV4Gg,
    SmeFmlsSSOV4Gi,
    SmeFmlsSSOV4Gs,
    SmeFmlslSHTSi,
    SmeFmlslSHTSs,
    SmeFmlslSHTV2Gg,
    SmeFmlslSHTV2Gi,
    SmeFmlslSHTV2Gs,
    SmeFmlslSHTV4Gg,
    SmeFmlslSHTV4Gi,
    SmeFmlslSHTV4Gs,
    SmeFmop4aB,
    SmeFmop4aBh,
    SmeFmop4aD,
    SmeFmop4aHh,
    SmeFmop4aHs,
    SmeFmop4aS,
    SmeFmop4sD,
    SmeFmop4sHh,
    SmeFmop4sHs,
    SmeFmop4sS,
    SmeFmopaB,
    SmeFmopaBh,
    SmeFmopaD,
    SmeFmopaH,
    SmeFmopaHh,
    SmeFmopaS,
    SmeFmopsD,
    SmeFmopsH,
    SmeFmopsHh,
    SmeFmopsS,
    SmeFmulMV2,
    SmeFmulMV4,
    SmeFmulMVS2,
    SmeFmulMVS4,
    SmeFrinta,
    SmeFrintm,
    SmeFrintn,
    SmeFrintp,
    SmeFscaleMVMV2,
    SmeFscaleMVMV4,
    SmeFscaleMVS2,
    SmeFscaleMVS4,
    SmeFsubDDV2Go,
    SmeFsubDDV4Go,
    SmeFsubHHV2Go,
    SmeFsubHHV4Go,
    SmeFsubSSV2Go,
    SmeFsubSSV4Go,
    SmeFtmopaHB,
    SmeFtmopaHH,
    SmeFtmopaSB,
    SmeFtmopaSH,
    SmeFtmopaSS,
    SmeFvdotHBV2Gi,
    SmeFvdotSHV2Gi,
    SmeFvdotbSBV4GiB,
    SmeFvdottSBV4GiB,
    SmeLd1bMV,
    SmeLd1bZa,
    SmeLd1dMV,
    SmeLd1dZa,
    SmeLd1hMV,
    SmeLd1hZa,
    SmeLd1qZa,
    SmeLd1wMV,
    SmeLd1wZa,
    SmeLdnt1bMV,
    SmeLdnt1dMV,
    SmeLdnt1hMV,
    SmeLdnt1wMV,
    SmeLdrZa,
    SmeLuti2Zt,
    SmeLuti4Zt,
    SmeLuti6,
    SmeLuti6Consec,
    SmeLuti6Single,
    SmeMovaArrayToVec,
    SmeMovaMultiTileToZ,
    SmeMovaMultiZToTile,
    SmeMovaTileToZ,
    SmeMovaVecToArray,
    SmeMovaZToTile,
    SmeMovazArrayToVec,
    SmeMovazMultiTileToZ,
    SmeMovazTileToZ,
    SmeMovtXZt0,
    SmeMovtZt0X,
    SmeMovtZt0Z,
    SmeSclampMV2,
    SmeSclampMV4,
    SmeScvtf,
    SmeSdotDHV2Gg,
    SmeSdotDHV2Gi,
    SmeSdotDHV2Gs,
    SmeSdotDHV4Gg,
    SmeSdotDHV4Gi,
    SmeSdotDHV4Gs,
    SmeSdotSBV2Gg,
    SmeSdotSBV2Gi,
    SmeSdotSBV2Gs,
    SmeSdotSBV4Gg,
    SmeSdotSBV4Gi,
    SmeSdotSBV4Gs,
    SmeSdotSHV2Gg,
    SmeSdotSHV2Gi,
    SmeSdotSHV2Gs,
    SmeSdotSHV4Gg,
    SmeSdotSHV4Gi,
    SmeSdotSHV4Gs,
    SmeSelMV2,
    SmeSelMV4,
    SmeSmaxMV2,
    SmeSmaxMV4,
    SmeSmaxMVS2,
    SmeSmaxMVS4,
    SmeSminMV2,
    SmeSminMV4,
    SmeSminMVS2,
    SmeSminMVS4,
    SmeSmlalSHTSi,
    SmeSmlalSHTSs,
    SmeSmlalSHTV2Gg,
    SmeSmlalSHTV2Gi,
    SmeSmlalSHTV2Gs,
    SmeSmlalSHTV4Gg,
    SmeSmlalSHTV4Gi,
    SmeSmlalSHTV4Gs,
    SmeSmlallDHQSi,
    SmeSmlallDHQSs,
    SmeSmlallDHQV2Gg,
    SmeSmlallDHQV2Gi,
    SmeSmlallDHQV2Gs,
    SmeSmlallDHQV4Gg,
    SmeSmlallDHQV4Gi,
    SmeSmlallDHQV4Gs,
    SmeSmlallSBQSi,
    SmeSmlallSBQSs,
    SmeSmlallSBQV2Gg,
    SmeSmlallSBQV2Gi,
    SmeSmlallSBQV2Gs,
    SmeSmlallSBQV4Gg,
    SmeSmlallSBQV4Gi,
    SmeSmlallSBQV4Gs,
    SmeSmlslSHTSi,
    SmeSmlslSHTSs,
    SmeSmlslSHTV2Gg,
    SmeSmlslSHTV2Gi,
    SmeSmlslSHTV2Gs,
    SmeSmlslSHTV4Gg,
    SmeSmlslSHTV4Gi,
    SmeSmlslSHTV4Gs,
    SmeSmlsllDHQSi,
    SmeSmlsllDHQSs,
    SmeSmlsllDHQV2Gg,
    SmeSmlsllDHQV2Gi,
    SmeSmlsllDHQV2Gs,
    SmeSmlsllDHQV4Gg,
    SmeSmlsllDHQV4Gi,
    SmeSmlsllDHQV4Gs,
    SmeSmlsllSBQSi,
    SmeSmlsllSBQSs,
    SmeSmlsllSBQV2Gg,
    SmeSmlsllSBQV2Gi,
    SmeSmlsllSBQV2Gs,
    SmeSmlsllSBQV4Gg,
    SmeSmlsllSBQV4Gi,
    SmeSmlsllSBQV4Gs,
    SmeSmop4aD,
    SmeSmop4aHs,
    SmeSmop4aS,
    SmeSmop4sD,
    SmeSmop4sHs,
    SmeSmop4sS,
    SmeSmopaD,
    SmeSmopaHs,
    SmeSmopaS,
    SmeSmopsD,
    SmeSmopsHs,
    SmeSmopsS,
    SmeSqcvt,
    SmeSqcvtnNarrow,
    SmeSqcvtu,
    SmeSqcvtunNarrow,
    SmeSqdmulhMV2,
    SmeSqdmulhMV4,
    SmeSqdmulhMVS2,
    SmeSqdmulhMVS4,
    SmeSqrshr,
    SmeSqrshrV2,
    SmeSqrshrn,
    SmeSqrshru,
    SmeSqrshruV2,
    SmeSqrshrun,
    SmeSrshlMV2,
    SmeSrshlMV4,
    SmeSrshlMVS2,
    SmeSrshlMVS4,
    SmeSt1bMV,
    SmeSt1bZa,
    SmeSt1dMV,
    SmeSt1dZa,
    SmeSt1hMV,
    SmeSt1hZa,
    SmeSt1qZa,
    SmeSt1wMV,
    SmeSt1wZa,
    SmeStmopaSB,
    SmeStmopaSH,
    SmeStnt1bMV,
    SmeStnt1dMV,
    SmeStnt1hMV,
    SmeStnt1wMV,
    SmeStrZa,
    SmeSubDDV2Gg,
    SmeSubDDV2Go,
    SmeSubDDV2Gs,
    SmeSubDDV4Gg,
    SmeSubDDV4Go,
    SmeSubDDV4Gs,
    SmeSubSSV2Gg,
    SmeSubSSV2Go,
    SmeSubSSV2Gs,
    SmeSubSSV4Gg,
    SmeSubSSV4Go,
    SmeSubSSV4Gs,
    SmeSudotSBV2Gi,
    SmeSudotSBV2Gs,
    SmeSudotSBV4Gi,
    SmeSudotSBV4Gs,
    SmeSumlallSBQSi,
    SmeSumlallSBQV2Gi,
    SmeSumlallSBQV2Gs,
    SmeSumlallSBQV4Gi,
    SmeSumlallSBQV4Gs,
    SmeSumop4aD,
    SmeSumop4aS,
    SmeSumop4sD,
    SmeSumop4sS,
    SmeSumopaD,
    SmeSumopaS,
    SmeSumopsD,
    SmeSumopsS,
    SmeSunpk,
    SmeSutmopaSB,
    SmeSuvdotSBV4Gi,
    SmeSvdotDHV4Gi,
    SmeSvdotSBV4Gi,
    SmeSvdotSHV2Gi,
    SmeUclampMV2,
    SmeUclampMV4,
    SmeUcvtf,
    SmeUdotDHV2Gg,
    SmeUdotDHV2Gi,
    SmeUdotDHV2Gs,
    SmeUdotDHV4Gg,
    SmeUdotDHV4Gi,
    SmeUdotDHV4Gs,
    SmeUdotSBV2Gg,
    SmeUdotSBV2Gi,
    SmeUdotSBV2Gs,
    SmeUdotSBV4Gg,
    SmeUdotSBV4Gi,
    SmeUdotSBV4Gs,
    SmeUdotSHV2Gg,
    SmeUdotSHV2Gi,
    SmeUdotSHV2Gs,
    SmeUdotSHV4Gg,
    SmeUdotSHV4Gi,
    SmeUdotSHV4Gs,
    SmeUmaxMV2,
    SmeUmaxMV4,
    SmeUmaxMVS2,
    SmeUmaxMVS4,
    SmeUminMV2,
    SmeUminMV4,
    SmeUminMVS2,
    SmeUminMVS4,
    SmeUmlalSHTSi,
    SmeUmlalSHTSs,
    SmeUmlalSHTV2Gg,
    SmeUmlalSHTV2Gi,
    SmeUmlalSHTV2Gs,
    SmeUmlalSHTV4Gg,
    SmeUmlalSHTV4Gi,
    SmeUmlalSHTV4Gs,
    SmeUmlallDHQSi,
    SmeUmlallDHQSs,
    SmeUmlallDHQV2Gg,
    SmeUmlallDHQV2Gi,
    SmeUmlallDHQV2Gs,
    SmeUmlallDHQV4Gg,
    SmeUmlallDHQV4Gi,
    SmeUmlallDHQV4Gs,
    SmeUmlallSBQSi,
    SmeUmlallSBQSs,
    SmeUmlallSBQV2Gg,
    SmeUmlallSBQV2Gi,
    SmeUmlallSBQV2Gs,
    SmeUmlallSBQV4Gg,
    SmeUmlallSBQV4Gi,
    SmeUmlallSBQV4Gs,
    SmeUmlslSHTSi,
    SmeUmlslSHTSs,
    SmeUmlslSHTV2Gg,
    SmeUmlslSHTV2Gi,
    SmeUmlslSHTV2Gs,
    SmeUmlslSHTV4Gg,
    SmeUmlslSHTV4Gi,
    SmeUmlslSHTV4Gs,
    SmeUmlsllDHQSi,
    SmeUmlsllDHQSs,
    SmeUmlsllDHQV2Gg,
    SmeUmlsllDHQV2Gi,
    SmeUmlsllDHQV2Gs,
    SmeUmlsllDHQV4Gg,
    SmeUmlsllDHQV4Gi,
    SmeUmlsllDHQV4Gs,
    SmeUmlsllSBQSi,
    SmeUmlsllSBQSs,
    SmeUmlsllSBQV2Gg,
    SmeUmlsllSBQV2Gi,
    SmeUmlsllSBQV2Gs,
    SmeUmlsllSBQV4Gg,
    SmeUmlsllSBQV4Gi,
    SmeUmlsllSBQV4Gs,
    SmeUmop4aD,
    SmeUmop4aHs,
    SmeUmop4aS,
    SmeUmop4sD,
    SmeUmop4sHs,
    SmeUmop4sS,
    SmeUmopaD,
    SmeUmopaHs,
    SmeUmopaS,
    SmeUmopsD,
    SmeUmopsHs,
    SmeUmopsS,
    SmeUqcvt,
    SmeUqcvtnNarrow,
    SmeUqrshr,
    SmeUqrshrV2,
    SmeUqrshrn,
    SmeUrshlMV2,
    SmeUrshlMV4,
    SmeUrshlMVS2,
    SmeUrshlMVS4,
    SmeUsdotSBV2Gg,
    SmeUsdotSBV2Gi,
    SmeUsdotSBV2Gs,
    SmeUsdotSBV4Gg,
    SmeUsdotSBV4Gi,
    SmeUsdotSBV4Gs,
    SmeUsmlallSBQSi,
    SmeUsmlallSBQSs,
    SmeUsmlallSBQV2Gg,
    SmeUsmlallSBQV2Gi,
    SmeUsmlallSBQV2Gs,
    SmeUsmlallSBQV4Gg,
    SmeUsmlallSBQV4Gi,
    SmeUsmlallSBQV4Gs,
    SmeUsmop4aD,
    SmeUsmop4aS,
    SmeUsmop4sD,
    SmeUsmop4sS,
    SmeUsmopaD,
    SmeUsmopaS,
    SmeUsmopsD,
    SmeUsmopsS,
    SmeUstmopaSB,
    SmeUsvdotSBV4Gi,
    SmeUtmopaSB,
    SmeUtmopaSH,
    SmeUunpk,
    SmeUvdotDHV4Gi,
    SmeUvdotSBV4Gi,
    SmeUvdotSHV2Gi,
    SmeUzpMV2,
    SmeUzpMV4,
    SmeZeroArray,
    SmeZeroMask,
    SmeZeroZt0,
    SmeZipMV2,
    SmeZipMV4,
    SveAbaLong,
    SveAbaSame,
    SveAbdLong,
    SveAbsZpz,
    SveAdalp,
    SveAddCarryLong,
    SveAddHighNarrow,
    SveAddLong,
    SveAddLongBt,
    SveAddWide,
    SveAddZi,
    SveAddZpzz,
    SveAddZzz,
    SveAddpl,
    SveAddptPred,
    SveAddptUnpred,
    SveAddqv,
    SveAddspl,
    SveAddsvl,
    SveAddvl,
    SveAdrSameScaled,
    SveAdrSxtw,
    SveAdrUxtw,
    SveAesMc,
    SveAesZz,
    SveAndZi,
    SveAndZpzz,
    SveAndZzz,
    SveAndqv,
    SveAndv,
    SveAsrWide,
    SveAsrWidePred,
    SveAsrZi,
    SveAsrZpzi,
    SveAsrZpzz,
    SveAsrdZpzi,
    SveAsrrZpzz,
    SveBcax,
    SveBfcvt,
    SveBfcvtZ,
    SveBfcvtnt,
    SveBfdot,
    SveBfdotIdx,
    SveBfmlaIdx,
    SveBfmlalb,
    SveBfmlalbIdx,
    SveBfmlalt,
    SveBfmlaltIdx,
    SveBfmlsIdx,
    SveBfmmla,
    SveBfmulIdx,
    SveBicZpzz,
    SveBicZzz,
    SveBitPerm,
    SveBrkPred,
    SveBrkn,
    SveBrkpPred,
    SveBsl,
    SveBsl1n,
    SveBsl2n,
    SveCadd,
    SveCdot,
    SveCdotIdx,
    SveClastR,
    SveClastV,
    SveClastZ,
    SveClsZpz,
    SveClzZpz,
    SveCmla,
    SveCmlaIdx,
    SveCmpZi,
    SveCmpZw,
    SveCmpZz,
    SveCnotZpz,
    SveCntElem,
    SveCntZpz,
    SveCntp,
    SveCompact,
    SveCpyImmMerge,
    SveCpyImmZero,
    SveCpyScalar,
    SveCpyVec,
    SveCterm,
    SveDotMixed,
    SveDupIdx,
    SveDupImm,
    SveDupScalar,
    SveDupmZi,
    SveDupq,
    SveEor3,
    SveEorInterleave,
    SveEorZi,
    SveEorZpzz,
    SveEorZzz,
    SveEorqv,
    SveEorv,
    SveExpand,
    SveExtCon,
    SveExtDes,
    SveExtq,
    SveExtractNarrow,
    SveFabdZpzz,
    SveFabsZpz,
    SveFacgeZz,
    SveFacgtZz,
    SveFaddZpzi,
    SveFaddZpzz,
    SveFaddZzz,
    SveFadda,
    SveFaddpZpzz,
    SveFaddqv,
    SveFaddv,
    SveFcadd,
    SveFcmeqZ0,
    SveFcmeqZz,
    SveFcmgeZ0,
    SveFcmgeZz,
    SveFcmgtZ0,
    SveFcmgtZz,
    SveFcmlaIdx,
    SveFcmlaZpzzz,
    SveFcmleZ0,
    SveFcmltZ0,
    SveFcmneZ0,
    SveFcmneZz,
    SveFcmuoZz,
    SveFcpy,
    SveFcvt,
    SveFcvtZ,
    SveFcvtlt,
    SveFcvtnt,
    SveFcvtx,
    SveFcvtxZ,
    SveFcvtxnt,
    SveFcvtzs,
    SveFcvtzsZ,
    SveFcvtzu,
    SveFcvtzuZ,
    SveFdivZpzz,
    SveFdivrZpzz,
    SveFdup,
    SveFexpa,
    SveFirstp,
    SveFlogbZ,
    SveFlogbZpz,
    SveFmadZpzzz,
    SveFmaxZpzi,
    SveFmaxZpzz,
    SveFmaxnmZpzi,
    SveFmaxnmZpzz,
    SveFmaxnmpZpzz,
    SveFmaxnmqv,
    SveFmaxnmv,
    SveFmaxpZpzz,
    SveFmaxqv,
    SveFmaxv,
    SveFminZpzi,
    SveFminZpzz,
    SveFminnmZpzi,
    SveFminnmZpzz,
    SveFminnmpZpzz,
    SveFminnmqv,
    SveFminnmv,
    SveFminpZpzz,
    SveFminqv,
    SveFminv,
    SveFmlaIdx,
    SveFmlaZpzzz,
    SveFmlalb,
    SveFmlalbFp8Idx,
    SveFmlalbIdx,
    SveFmlallbbFp8Idx,
    SveFmlallbtFp8Idx,
    SveFmlalltbFp8Idx,
    SveFmlallttFp8Idx,
    SveFmlalt,
    SveFmlaltFp8Idx,
    SveFmlaltIdx,
    SveFmlsIdx,
    SveFmlsZpzzz,
    SveFmlslb,
    SveFmlslbIdx,
    SveFmlslt,
    SveFmlsltIdx,
    SveFmmla,
    SveFmsbZpzzz,
    SveFmulIdx,
    SveFmulZpzi,
    SveFmulZpzz,
    SveFmulZzz,
    SveFmulxZpzz,
    SveFnegZpz,
    SveFnmadZpzzz,
    SveFnmlaZpzzz,
    SveFnmlsZpzzz,
    SveFnmsbZpzzz,
    SveFrecpe,
    SveFrecpsZzz,
    SveFrecpxZ,
    SveFrecpxZpz,
    SveFrintaZ,
    SveFrintaZpz,
    SveFrintiZ,
    SveFrintiZpz,
    SveFrintmZ,
    SveFrintmZpz,
    SveFrintnZ,
    SveFrintnZpz,
    SveFrintpZ,
    SveFrintpZpz,
    SveFrintxZ,
    SveFrintxZpz,
    SveFrintzZ,
    SveFrintzZpz,
    SveFrsqrte,
    SveFrsqrtsZzz,
    SveFscaleZpzz,
    SveFsqrtZ,
    SveFsqrtZpz,
    SveFsubZpzi,
    SveFsubZpzz,
    SveFsubZzz,
    SveFsubrZpzi,
    SveFsubrZpzz,
    SveFtmad,
    SveFtsmulZzz,
    SveFtssel,
    SveHalvingZpzz,
    SveHistcnt,
    SveHistseg,
    SveIncDecPScalar,
    SveIncDecPVector,
    SveIncDecScalar,
    SveIncDecVector,
    SveIndexImmImm,
    SveIndexIr,
    SveIndexRi,
    SveIndexRr,
    SveInsrScalar,
    SveInsrVec,
    SveLastR,
    SveLastV,
    SveLastp,
    SveLd1bG32,
    SveLd1bG64,
    SveLd1bImm,
    SveLd1bSs,
    SveLd1bVi,
    SveLd1dG32,
    SveLd1dG64,
    SveLd1dImm,
    SveLd1dSs,
    SveLd1dVi,
    SveLd1dqImm,
    SveLd1dqSs,
    SveLd1hG32,
    SveLd1hG64,
    SveLd1hImm,
    SveLd1hSs,
    SveLd1hVi,
    SveLd1qG,
    SveLd1rbImm,
    SveLd1rdImm,
    SveLd1rhImm,
    SveLd1robImm,
    SveLd1robSs,
    SveLd1rodImm,
    SveLd1rodSs,
    SveLd1rohImm,
    SveLd1rohSs,
    SveLd1rowImm,
    SveLd1rowSs,
    SveLd1rqbImm,
    SveLd1rqbSs,
    SveLd1rqdImm,
    SveLd1rqdSs,
    SveLd1rqhImm,
    SveLd1rqhSs,
    SveLd1rqwImm,
    SveLd1rqwSs,
    SveLd1rsbImm,
    SveLd1rshImm,
    SveLd1rswImm,
    SveLd1rwImm,
    SveLd1sbG32,
    SveLd1sbG64,
    SveLd1sbImm,
    SveLd1sbSs,
    SveLd1sbVi,
    SveLd1shG32,
    SveLd1shG64,
    SveLd1shImm,
    SveLd1shSs,
    SveLd1shVi,
    SveLd1swG32,
    SveLd1swG64,
    SveLd1swImm,
    SveLd1swSs,
    SveLd1swVi,
    SveLd1wG32,
    SveLd1wG64,
    SveLd1wImm,
    SveLd1wSs,
    SveLd1wVi,
    SveLd1wqImm,
    SveLd1wqSs,
    SveLd2bImm,
    SveLd2bSs,
    SveLd2dImm,
    SveLd2dSs,
    SveLd2hImm,
    SveLd2hSs,
    SveLd2qImm,
    SveLd2qSs,
    SveLd2wImm,
    SveLd2wSs,
    SveLd3bImm,
    SveLd3bSs,
    SveLd3dImm,
    SveLd3dSs,
    SveLd3hImm,
    SveLd3hSs,
    SveLd3qImm,
    SveLd3qSs,
    SveLd3wImm,
    SveLd3wSs,
    SveLd4bImm,
    SveLd4bSs,
    SveLd4dImm,
    SveLd4dSs,
    SveLd4hImm,
    SveLd4hSs,
    SveLd4qImm,
    SveLd4qSs,
    SveLd4wImm,
    SveLd4wSs,
    SveLdff1bG32,
    SveLdff1bG64,
    SveLdff1bSs,
    SveLdff1bVi,
    SveLdff1dG32,
    SveLdff1dG64,
    SveLdff1dSs,
    SveLdff1dVi,
    SveLdff1hG32,
    SveLdff1hG64,
    SveLdff1hSs,
    SveLdff1hVi,
    SveLdff1sbG32,
    SveLdff1sbG64,
    SveLdff1sbSs,
    SveLdff1sbVi,
    SveLdff1shG32,
    SveLdff1shG64,
    SveLdff1shSs,
    SveLdff1shVi,
    SveLdff1swG32,
    SveLdff1swG64,
    SveLdff1swSs,
    SveLdff1swVi,
    SveLdff1wG32,
    SveLdff1wG64,
    SveLdff1wSs,
    SveLdff1wVi,
    SveLdnf1bImm,
    SveLdnf1dImm,
    SveLdnf1hImm,
    SveLdnf1sbImm,
    SveLdnf1shImm,
    SveLdnf1swImm,
    SveLdnf1wImm,
    SveLdnt1bImm,
    SveLdnt1bSs,
    SveLdnt1bVs,
    SveLdnt1dImm,
    SveLdnt1dSs,
    SveLdnt1dVs,
    SveLdnt1hImm,
    SveLdnt1hSs,
    SveLdnt1hVs,
    SveLdnt1sbImm,
    SveLdnt1sbSs,
    SveLdnt1sbVs,
    SveLdnt1shImm,
    SveLdnt1shSs,
    SveLdnt1shVs,
    SveLdnt1swImm,
    SveLdnt1swSs,
    SveLdnt1swVs,
    SveLdnt1wImm,
    SveLdnt1wSs,
    SveLdnt1wVs,
    SveLdrP,
    SveLdrZ,
    SveLslWide,
    SveLslWidePred,
    SveLslZi,
    SveLslZpzi,
    SveLslZpzz,
    SveLslrZpzz,
    SveLsrWide,
    SveLsrWidePred,
    SveLsrZi,
    SveLsrZpzi,
    SveLsrZpzz,
    SveLsrrZpzz,
    SveLuti2,
    SveLuti4,
    SveLuti4Two,
    SveMadZpzzz,
    SveMatch,
    SveMatmulInt,
    SveMlaIdx,
    SveMlaLong,
    SveMlaLongIdx,
    SveMlaZpzzz,
    SveMlsIdx,
    SveMlsZpzzz,
    SveMovZzz,
    SveMovprfxZpz,
    SveMovprfxZz,
    SveMsbZpzzz,
    SveMulIdx,
    SveMulLong,
    SveMulLongIdx,
    SveMulZi,
    SveMulZpzz,
    SveMulZzz,
    SveNbsl,
    SveNegZpz,
    SveNotZpz,
    SveOrqv,
    SveOrrZi,
    SveOrrZpzz,
    SveOrrZzz,
    SveOrv,
    SvePairZpzz,
    SvePfalse,
    SvePfirst,
    SvePmov,
    SvePmulLong,
    SvePmulZzz,
    SvePnext,
    SvePredLogical,
    SvePrfbG32,
    SvePrfbG64,
    SvePrfbImm,
    SvePrfbSs,
    SvePrfbVi,
    SvePrfdG32,
    SvePrfdG64,
    SvePrfdImm,
    SvePrfdSs,
    SvePrfdVi,
    SvePrfhG32,
    SvePrfhG64,
    SvePrfhImm,
    SvePrfhSs,
    SvePrfhVi,
    SvePrfwG32,
    SvePrfwG64,
    SvePrfwImm,
    SvePrfwSs,
    SvePrfwVi,
    SvePsel,
    SvePtest,
    SvePtrue,
    SvePunpk,
    SveRax1,
    SveRbitZpz,
    SveRdffr,
    SveRdffrPred,
    SveRdsvl,
    SveRdvl,
    SveRecipEst,
    SveRevP,
    SveRevZz,
    SveRevbhw,
    SveRevdZpzZero,
    SveSabal,
    SveSabdZpzz,
    SveSaddv,
    SveSatRoundZpzz,
    SveSatUnaryZpz,
    SveSclamp,
    SveScvtf,
    SveScvtfZ,
    SveSdivZpzz,
    SveSdivrZpzz,
    SveSdot,
    SveSdotH,
    SveSdotHIdx,
    SveSdotIdx,
    SveSelPred,
    SveSelZpzz,
    SveSetffr,
    SveShiftAccum,
    SveShiftInsert,
    SveShiftLongImm,
    SveShiftNarrow,
    SveSm4e,
    SveSm4ekey,
    SveSmaxZi,
    SveSmaxZpzz,
    SveSmaxqv,
    SveSmaxv,
    SveSminZi,
    SveSminZpzz,
    SveSminqv,
    SveSminv,
    SveSmulhZpzz,
    SveSmulhZzz,
    SveSpliceCon,
    SveSpliceDes,
    SveSqIncDecPScalarSx,
    SveSqIncDecScalarSx,
    SveSqaddZi,
    SveSqaddZzz,
    SveSqcadd,
    SveSqdmlalLong,
    SveSqdmlalLongBt,
    SveSqdmlalLongIdx,
    SveSqdmulLong,
    SveSqdmulLongIdx,
    SveSqdmulhIdx,
    SveSqrdcmlah,
    SveSqrdcmlahIdx,
    SveSqrdmlah,
    SveSqrdmlahIdx,
    SveSqrdmlsh,
    SveSqrdmlshIdx,
    SveSqrdmulhIdx,
    SveSqsubZi,
    SveSqsubZzz,
    SveSt1bG32,
    SveSt1bG64,
    SveSt1bImm,
    SveSt1bSs,
    SveSt1bVi,
    SveSt1dG32,
    SveSt1dG64,
    SveSt1dImm,
    SveSt1dSs,
    SveSt1dVi,
    SveSt1dqImm,
    SveSt1dqSs,
    SveSt1hG32,
    SveSt1hG64,
    SveSt1hImm,
    SveSt1hSs,
    SveSt1hVi,
    SveSt1qS,
    SveSt1wG32,
    SveSt1wG64,
    SveSt1wImm,
    SveSt1wSs,
    SveSt1wVi,
    SveSt1wqImm,
    SveSt1wqSs,
    SveSt2bImm,
    SveSt2bSs,
    SveSt2dImm,
    SveSt2dSs,
    SveSt2hImm,
    SveSt2hSs,
    SveSt2qImm,
    SveSt2qSs,
    SveSt2wImm,
    SveSt2wSs,
    SveSt3bImm,
    SveSt3bSs,
    SveSt3dImm,
    SveSt3dSs,
    SveSt3hImm,
    SveSt3hSs,
    SveSt3qImm,
    SveSt3qSs,
    SveSt3wImm,
    SveSt3wSs,
    SveSt4bImm,
    SveSt4bSs,
    SveSt4dImm,
    SveSt4dSs,
    SveSt4hImm,
    SveSt4hSs,
    SveSt4qImm,
    SveSt4qSs,
    SveSt4wImm,
    SveSt4wSs,
    SveStnt1bImm,
    SveStnt1bSs,
    SveStnt1bVs,
    SveStnt1dImm,
    SveStnt1dSs,
    SveStnt1dVs,
    SveStnt1hImm,
    SveStnt1hSs,
    SveStnt1hVs,
    SveStnt1wImm,
    SveStnt1wSs,
    SveStnt1wVs,
    SveStrP,
    SveStrZ,
    SveSubZi,
    SveSubZpzz,
    SveSubZzz,
    SveSubptPred,
    SveSubptUnpred,
    SveSubrZi,
    SveSubrZpzz,
    SveSxtbZpz,
    SveSxthZpz,
    SveSxtwZpz,
    SveTbl,
    SveTbl2,
    SveTblq,
    SveTbx,
    SveTbxq,
    SveUabal,
    SveUabdZpzz,
    SveUaddv,
    SveUclamp,
    SveUcvtf,
    SveUcvtfZ,
    SveUdivZpzz,
    SveUdivrZpzz,
    SveUdot,
    SveUdotH,
    SveUdotHIdx,
    SveUdotIdx,
    SveUmaxZi,
    SveUmaxZpzz,
    SveUmaxqv,
    SveUmaxv,
    SveUminZi,
    SveUminZpzz,
    SveUminqv,
    SveUminv,
    SveUmulhZpzz,
    SveUmulhZzz,
    SveUnpk,
    SveUqaddZi,
    SveUqaddZzz,
    SveUqsubZi,
    SveUqsubZzz,
    SveUxtbZpz,
    SveUxthZpz,
    SveUxtwZpz,
    SveWhile,
    SveWhilePair,
    SveWhilePn,
    SveWhileRw,
    SveWrffr,
    SveXar,
    SveZipUzpTrnPpp,
    SveZipUzpTrnQ,
    SveZipUzpTrnZzz,
    SveZipqUzpq,
}

/// The assembler mnemonic of an instruction (its preferred spelling).
#[derive(Clone, Copy, PartialEq, Eq, Debug, Structural)]
pub enum Mnemonic {
    /// The mnemonic of an undecodable word.
    Invalid,
    Aba,
    Abd,
    Abs,
    Adalp,
    Adclb,
    Adclt,
    Add,
    Addha,
    Addhnb,
    Addhnt,
    Addp,
    Addpl,
    Addpt,
    Addqv,
    Addspl,
    Addsvl,
    Addva,
    Addvl,
    Adr,
    Aes,
    Aesd,
    Aese,
    Aesimc,
    Aesmc,
    And,
    Andqv,
    Ands,
    Andv,
    Asr,
    Asrd,
    Asrr,
    Bcax,
    Bdep,
    Bext,
    Bf1cvt,
    Bf1cvtl,
    Bf2cvt,
    Bf2cvtl,
    Bfadd,
    Bfclamp,
    Bfcvt,
    Bfcvtn,
    Bfcvtnt,
    Bfdot,
    Bfmax,
    Bfmaxnm,
    Bfmin,
    Bfminnm,
    Bfmla,
    Bfmlal,
    Bfmlalb,
    Bfmlalt,
    Bfmls,
    Bfmlsl,
    Bfmmla,
    Bfmop4a,
    Bfmop4s,
    Bfmopa,
    Bfmops,
    Bfmul,
    Bfscale,
    Bfsub,
    Bftmopa,
    Bfvdot,
    Bgrp,
    Bic,
    Bics,
    Bit,
    Bmopa,
    Bmops,
    Brk,
    Brka,
    Brkas,
    Brkb,
    Brkbs,
    Brkn,
    Brkns,
    Brkp,
    Brkpa,
    Brkpas,
    Brkpb,
    Brkpbs,
    Bsl,
    Bsl1n,
    Bsl2n,
    Cadd,
    Cdot,
    Clast,
    Clasta,
    Clastb,
    Cls,
    Clz,
    Cmla,
    Cmp,
    Cmpeq,
    Cmpge,
    Cmpgt,
    Cmphi,
    Cmphs,
    Cmple,
    Cmplo,
    Cmpls,
    Cmplt,
    Cmpne,
    Cnot,
    Cnt,
    Cntb,
    Cntd,
    Cnth,
    Cntp,
    Cntw,
    Compact,
    Cpy,
    Cterm,
    Ctermeq,
    Ctermne,
    Decb,
    Decd,
    Dech,
    Decp,
    Decw,
    Dot,
    Dup,
    Dupm,
    Dupq,
    Eor,
    Eor3,
    Eorbt,
    Eorqv,
    Eors,
    Eortb,
    Eorv,
    Expand,
    Ext,
    Extq,
    Extract,
    F1cvt,
    F1cvtl,
    F2cvt,
    F2cvtl,
    Fabd,
    Fabs,
    Facge,
    Facgt,
    Fadd,
    Fadda,
    Faddp,
    Faddqv,
    Faddv,
    Famax,
    Famin,
    Fcadd,
    Fclamp,
    Fcmeq,
    Fcmge,
    Fcmgt,
    Fcmla,
    Fcmle,
    Fcmlt,
    Fcmne,
    Fcmuo,
    Fcpy,
    Fcvt,
    Fcvtl,
    Fcvtlt,
    Fcvtn,
    Fcvtnt,
    Fcvtx,
    Fcvtxnt,
    Fcvtzs,
    Fcvtzu,
    Fdiv,
    Fdivr,
    Fdot,
    Fdup,
    Fexpa,
    Firstp,
    Flogb,
    Fmad,
    Fmax,
    Fmaxnm,
    Fmaxnmp,
    Fmaxnmqv,
    Fmaxnmv,
    Fmaxp,
    Fmaxqv,
    Fmaxv,
    Fmin,
    Fminnm,
    Fminnmp,
    Fminnmqv,
    Fminnmv,
    Fminp,
    Fminqv,
    Fminv,
    Fmla,
    Fmlal,
    Fmlalb,
    Fmlall,
    Fmlallbb,
    Fmlallbt,
    Fmlalltb,
    Fmlalltt,
    Fmlalt,
    Fmls,
    Fmlsl,
    Fmlslb,
    Fmlslt,
    Fmmla,
    Fmop4a,
    Fmop4s,
    Fmopa,
    Fmops,
    Fmov,
    Fmsb,
    Fmul,
    Fmulx,
    Fneg,
    Fnmad,
    Fnmla,
    Fnmls,
    Fnmsb,
    Frecpe,
    Frecps,
    Frecpx,
    Frinta,
    Frinti,
    Frintm,
    Frintn,
    Frintp,
    Frintx,
    Frintz,
    Frsqrte,
    Frsqrts,
    Fscale,
    Fsqrt,
    Fsub,
    Fsubr,
    Ftmad,
    Ftmopa,
    Ftsmul,
    Ftssel,
    Fvdot,
    Fvdotb,
    Fvdott,
    Halving,
    Histcnt,
    Histseg,
    Inc,
    Incb,
    Incd,
    Inch,
    Incp,
    Incw,
    Index,
    Insr,
    Last,
    Lasta,
    Lastb,
    Lastp,
    Ld1b,
    Ld1d,
    Ld1h,
    Ld1q,
    Ld1rb,
    Ld1rd,
    Ld1rh,
    Ld1rob,
    Ld1rod,
    Ld1roh,
    Ld1row,
    Ld1rqb,
    Ld1rqd,
    Ld1rqh,
    Ld1rqw,
    Ld1rsb,
    Ld1rsh,
    Ld1rsw,
    Ld1rw,
    Ld1sb,
    Ld1sh,
    Ld1sw,
    Ld1w,
    Ld2b,
    Ld2d,
    Ld2h,
    Ld2q,
    Ld2w,
    Ld3b,
    Ld3d,
    Ld3h,
    Ld3q,
    Ld3w,
    Ld4b,
    Ld4d,
    Ld4h,
    Ld4q,
    Ld4w,
    Ldff1b,
    Ldff1d,
    Ldff1h,
    Ldff1sb,
    Ldff1sh,
    Ldff1sw,
    Ldff1w,
    Ldnf1b,
    Ldnf1d,
    Ldnf1h,
    Ldnf1sb,
    Ldnf1sh,
    Ldnf1sw,
    Ldnf1w,
    Ldnt1b,
    Ldnt1d,
    Ldnt1h,
    Ldnt1sb,
    Ldnt1sh,
    Ldnt1sw,
    Ldnt1w,
    Ldr,
    Lsl,
    Lslr,
    Lsr,
    Lsrr,
    Luti2,
    Luti4,
    Luti6,
    Mad,
    Match,
    Matmul,
    Mla,
    Mls,
    Mov,
    Mova,
    Movaz,
    Movprfx,
    Movs,
    Movt,
    Msb,
    Mul,
    Nand,
    Nands,
    Nbsl,
    Neg,
    Nmatch,
    Nor,
    Nors,
    Not,
    Nots,
    Orn,
    Orns,
    Orqv,
    Orr,
    Orrs,
    Orv,
    Pair,
    Pfalse,
    Pfirst,
    Pmov,
    Pmul,
    Pmullb,
    Pmullt,
    Pnext,
    Pred,
    Prfb,
    Prfd,
    Prfh,
    Prfw,
    Psel,
    Ptest,
    Ptrue,
    Ptrues,
    Punpk,
    Punpkhi,
    Punpklo,
    Raddhnb,
    Raddhnt,
    Rax1,
    Rbit,
    Rdffr,
    Rdffrs,
    Rdsvl,
    Rdvl,
    Recip,
    Rev,
    Revb,
    Revbhw,
    Revd,
    Revh,
    Revw,
    Rshrnb,
    Rshrnt,
    Rsubhnb,
    Rsubhnt,
    Saba,
    Sabal,
    Sabalb,
    Sabalt,
    Sabd,
    Sabdlb,
    Sabdlt,
    Sadalp,
    Saddlb,
    Saddlbt,
    Saddlt,
    Saddv,
    Saddwb,
    Saddwt,
    Sat,
    Sbclb,
    Sbclt,
    Sclamp,
    Scvtf,
    Sdiv,
    Sdivr,
    Sdot,
    Sel,
    Setffr,
    Shadd,
    Shift,
    Shrnb,
    Shrnt,
    Shsub,
    Shsubr,
    Sli,
    Sm4e,
    Sm4ekey,
    Smax,
    Smaxp,
    Smaxqv,
    Smaxv,
    Smin,
    Sminp,
    Sminqv,
    Sminv,
    Smlal,
    Smlalb,
    Smlall,
    Smlalt,
    Smlsl,
    Smlslb,
    Smlsll,
    Smlslt,
    Smmla,
    Smop4a,
    Smop4s,
    Smopa,
    Smops,
    Smulh,
    Smullb,
    Smullt,
    Splice,
    Sq,
    Sqabs,
    Sqadd,
    Sqcadd,
    Sqcvt,
    Sqcvtn,
    Sqcvtu,
    Sqcvtun,
    Sqdecb,
    Sqdecd,
    Sqdech,
    Sqdecp,
    Sqdecw,
    Sqdmlal,
    Sqdmlalb,
    Sqdmlalbt,
    Sqdmlalt,
    Sqdmlslb,
    Sqdmlslbt,
    Sqdmlslt,
    Sqdmul,
    Sqdmulh,
    Sqdmullb,
    Sqdmullt,
    Sqincb,
    Sqincd,
    Sqinch,
    Sqincp,
    Sqincw,
    Sqneg,
    Sqrdcmlah,
    Sqrdmlah,
    Sqrdmlsh,
    Sqrdmulh,
    Sqrshl,
    Sqrshlr,
    Sqrshr,
    Sqrshrn,
    Sqrshrnb,
    Sqrshrnt,
    Sqrshru,
    Sqrshrun,
    Sqrshrunb,
    Sqrshrunt,
    Sqshl,
    Sqshlr,
    Sqshlu,
    Sqshrnb,
    Sqshrnt,
    Sqshrunb,
    Sqshrunt,
    Sqsub,
    Sqsubr,
    Sqxtnb,
    Sqxtnt,
    Sqxtunb,
    Sqxtunt,
    Srhadd,
    Sri,
    Srshl,
    Srshlr,
    Srshr,
    Srsra,
    Sshllb,
    Sshllt,
    Ssra,
    Ssublb,
    Ssublbt,
    Ssublt,
    Ssubltb,
    Ssubwb,
    Ssubwt,
    St1b,
    St1d,
    St1h,
    St1q,
    St1w,
    St2b,
    St2d,
    St2h,
    St2q,
    St2w,
    St3b,
    St3d,
    St3h,
    St3q,
    St3w,
    St4b,
    St4d,
    St4h,
    St4q,
    St4w,
    Stmopa,
    Stnt1b,
    Stnt1d,
    Stnt1h,
    Stnt1w,
    Str,
    Sub,
    Subhnb,
    Subhnt,
    Subpt,
    Subr,
    Sudot,
    Sumlall,
    Sumop4a,
    Sumop4s,
    Sumopa,
    Sumops,
    Sunpk,
    Sunpkhi,
    Sunpklo,
    Suqadd,
    Sutmopa,
    Suvdot,
    Svdot,
    Sxtb,
    Sxth,
    Sxtw,
    Tbl,
    Tbl2,
    Tblq,
    Tbx,
    Tbxq,
    Trn1,
    Trn2,
    Uaba,
    Uabal,
    Uabalb,
    Uabalt,
    Uabd,
    Uabdlb,
    Uabdlt,
    Uadalp,
    Uaddlb,
    Uaddlt,
    Uaddv,
    Uaddwb,
    Uaddwt,
    Uclamp,
    Ucvtf,
    Udiv,
    Udivr,
    Udot,
    Uhadd,
    Uhsub,
    Uhsubr,
    Umax,
    Umaxp,
    Umaxqv,
    Umaxv,
    Umin,
    Uminp,
    Uminqv,
    Uminv,
    Umlal,
    Umlalb,
    Umlall,
    Umlalt,
    Umlsl,
    Umlslb,
    Umlsll,
    Umlslt,
    Ummla,
    Umop4a,
    Umop4s,
    Umopa,
    Umops,
    Umulh,
    Umullb,
    Umullt,
    Unpk,
    Uqadd,
    Uqcvt,
    Uqcvtn,
    Uqdecb,
    Uqdecd,
    Uqdech,
    Uqdecp,
    Uqdecw,
    Uqincb,
    Uqincd,
    Uqinch,
    Uqincp,
    Uqincw,
    Uqrshl,
    Uqrshlr,
    Uqrshr,
    Uqrshrn,
    Uqrshrnb,
    Uqrshrnt,
    Uqshl,
    Uqshlr,
    Uqshrnb,
    Uqshrnt,
    Uqsub,
    Uqsubr,
    Uqxtnb,
    Uqxtnt,
    Urecpe,
    Urhadd,
    Urshl,
    Urshlr,
    Urshr,
    Ursqrte,
    Ursra,
    Usdot,
    Ushllb,
    Ushllt,
    Usmlall,
    Usmmla,
    Usmop4a,
    Usmop4s,
    Usmopa,
    Usmops,
    Usqadd,
    Usra,
    Ustmopa,
    Usublb,
    Usublt,
    Usubwb,
    Usubwt,
    Usvdot,
    Utmopa,
    Uunpk,
    Uunpkhi,
    Uunpklo,
    Uvdot,
    Uxtb,
    Uxth,
    Uxtw,
    Uzp,
    Uzp1,
    Uzp2,
    Uzpq1,
    Uzpq2,
    While,
    Whilege,
    Whilegt,
    Whilehi,
    Whilehs,
    Whilele,
    Whilelo,
    Whilels,
    Whilelt,
    Whilerw,
    Whilewr,
    Wrffr,
    Xar,
    Zero,
    Zip,
    Zip1,
    Zip2,
    Zipq,
    Zipq1,
    Zipq2,
}

/// The mnemonic a `Code` is written with when no alias is chosen.
#[verifier::opaque]
pub open spec fn code_mnemonic(x: Code) -> Mnemonic {
    match x {
        Code::Invalid => Mnemonic::Invalid,
        Code::RevdZPZ => Mnemonic::Revd,
        Code::SmeAddDDV2Gg => Mnemonic::Add,
        Code::SmeAddDDV2Go => Mnemonic::Add,
        Code::SmeAddDDV2Gs => Mnemonic::Add,
        Code::SmeAddDDV4Gg => Mnemonic::Add,
        Code::SmeAddDDV4Go => Mnemonic::Add,
        Code::SmeAddDDV4Gs => Mnemonic::Add,
        Code::SmeAddMVS2 => Mnemonic::Add,
        Code::SmeAddMVS4 => Mnemonic::Add,
        Code::SmeAddSSV2Gg => Mnemonic::Add,
        Code::SmeAddSSV2Go => Mnemonic::Add,
        Code::SmeAddSSV2Gs => Mnemonic::Add,
        Code::SmeAddSSV4Gg => Mnemonic::Add,
        Code::SmeAddSSV4Go => Mnemonic::Add,
        Code::SmeAddSSV4Gs => Mnemonic::Add,
        Code::SmeAddha => Mnemonic::Addha,
        Code::SmeAddva => Mnemonic::Addva,
        Code::SmeBf1cvtWiden => Mnemonic::Bf1cvt,
        Code::SmeBf1cvtlWiden => Mnemonic::Bf1cvtl,
        Code::SmeBf2cvtWiden => Mnemonic::Bf2cvt,
        Code::SmeBf2cvtlWiden => Mnemonic::Bf2cvtl,
        Code::SmeBfaddV2Go => Mnemonic::Bfadd,
        Code::SmeBfaddV4Go => Mnemonic::Bfadd,
        Code::SmeBfclampMV2 => Mnemonic::Bfclamp,
        Code::SmeBfclampMV4 => Mnemonic::Bfclamp,
        Code::SmeBfcvtNarrow => Mnemonic::Bfcvt,
        Code::SmeBfcvtNarrowFp8 => Mnemonic::Bfcvt,
        Code::SmeBfcvtnNarrowFp => Mnemonic::Bfcvtn,
        Code::SmeBfdotSHV2Gg => Mnemonic::Bfdot,
        Code::SmeBfdotSHV2Gi => Mnemonic::Bfdot,
        Code::SmeBfdotSHV2Gs => Mnemonic::Bfdot,
        Code::SmeBfdotSHV4Gg => Mnemonic::Bfdot,
        Code::SmeBfdotSHV4Gi => Mnemonic::Bfdot,
        Code::SmeBfdotSHV4Gs => Mnemonic::Bfdot,
        Code::SmeBfmaxMV2 => Mnemonic::Bfmax,
        Code::SmeBfmaxMV4 => Mnemonic::Bfmax,
        Code::SmeBfmaxMVS2 => Mnemonic::Bfmax,
        Code::SmeBfmaxMVS4 => Mnemonic::Bfmax,
        Code::SmeBfmaxnmMV2 => Mnemonic::Bfmaxnm,
        Code::SmeBfmaxnmMV4 => Mnemonic::Bfmaxnm,
        Code::SmeBfmaxnmMVS2 => Mnemonic::Bfmaxnm,
        Code::SmeBfmaxnmMVS4 => Mnemonic::Bfmaxnm,
        Code::SmeBfminMV2 => Mnemonic::Bfmin,
        Code::SmeBfminMV4 => Mnemonic::Bfmin,
        Code::SmeBfminMVS2 => Mnemonic::Bfmin,
        Code::SmeBfminMVS4 => Mnemonic::Bfmin,
        Code::SmeBfminnmMV2 => Mnemonic::Bfminnm,
        Code::SmeBfminnmMV4 => Mnemonic::Bfminnm,
        Code::SmeBfminnmMVS2 => Mnemonic::Bfminnm,
        Code::SmeBfminnmMVS4 => Mnemonic::Bfminnm,
        Code::SmeBfmlaHHOV2Gg => Mnemonic::Bfmla,
        Code::SmeBfmlaHHOV2Gi => Mnemonic::Bfmla,
        Code::SmeBfmlaHHOV2Gs => Mnemonic::Bfmla,
        Code::SmeBfmlaHHOV4Gg => Mnemonic::Bfmla,
        Code::SmeBfmlaHHOV4Gi => Mnemonic::Bfmla,
        Code::SmeBfmlaHHOV4Gs => Mnemonic::Bfmla,
        Code::SmeBfmlalSHTSi => Mnemonic::Bfmlal,
        Code::SmeBfmlalSHTSs => Mnemonic::Bfmlal,
        Code::SmeBfmlalSHTV2Gg => Mnemonic::Bfmlal,
        Code::SmeBfmlalSHTV2Gi => Mnemonic::Bfmlal,
        Code::SmeBfmlalSHTV2Gs => Mnemonic::Bfmlal,
        Code::SmeBfmlalSHTV4Gg => Mnemonic::Bfmlal,
        Code::SmeBfmlalSHTV4Gi => Mnemonic::Bfmlal,
        Code::SmeBfmlalSHTV4Gs => Mnemonic::Bfmlal,
        Code::SmeBfmlsHHOV2Gg => Mnemonic::Bfmls,
        Code::SmeBfmlsHHOV2Gi => Mnemonic::Bfmls,
        Code::SmeBfmlsHHOV2Gs => Mnemonic::Bfmls,
        Code::SmeBfmlsHHOV4Gg => Mnemonic::Bfmls,
        Code::SmeBfmlsHHOV4Gi => Mnemonic::Bfmls,
        Code::SmeBfmlsHHOV4Gs => Mnemonic::Bfmls,
        Code::SmeBfmlslSHTSi => Mnemonic::Bfmlsl,
        Code::SmeBfmlslSHTSs => Mnemonic::Bfmlsl,
        Code::SmeBfmlslSHTV2Gg => Mnemonic::Bfmlsl,
        Code::SmeBfmlslSHTV2Gi => Mnemonic::Bfmlsl,
        Code::SmeBfmlslSHTV2Gs => Mnemonic::Bfmlsl,
        Code::SmeBfmlslSHTV4Gg => Mnemonic::Bfmlsl,
        Code::SmeBfmlslSHTV4Gi => Mnemonic::Bfmlsl,
        Code::SmeBfmlslSHTV4Gs => Mnemonic::Bfmlsl,
        Code::SmeBfmop4aHh => Mnemonic::Bfmop4a,
        Code::SmeBfmop4aS => Mnemonic::Bfmop4a,
        Code::SmeBfmop4sHh => Mnemonic::Bfmop4s,
        Code::SmeBfmop4sS => Mnemonic::Bfmop4s,
        Code::SmeBfmopa => Mnemonic::Bfmopa,
        Code::SmeBfmopaH => Mnemonic::Bfmopa,
        Code::SmeBfmops => Mnemonic::Bfmops,
        Code::SmeBfmopsH => Mnemonic::Bfmops,
        Code::SmeBfmulMV2 => Mnemonic::Bfmul,
        Code::SmeBfmulMV4 => Mnemonic::Bfmul,
        Code::SmeBfmulMVS2 => Mnemonic::Bfmul,
        Code::SmeBfmulMVS4 => Mnemonic::Bfmul,
        Code::SmeBfscaleMV2 => Mnemonic::Bfscale,
        Code::SmeBfscaleMV4 => Mnemonic::Bfscale,
        Code::SmeBfscaleMVS2 => Mnemonic::Bfscale,
        Code::SmeBfscaleMVS4 => Mnemonic::Bfscale,
        Code::SmeBfsubV2Go => Mnemonic::Bfsub,
        Code::SmeBfsubV4Go => Mnemonic::Bfsub,
        Code::SmeBftmopaHH => Mnemonic::Bftmopa,
        Code::SmeBftmopaSH => Mnemonic::Bftmopa,
        Code::SmeBfvdotSHV2Gi => Mnemonic::Bfvdot,
        Code::SmeBmopaS => Mnemonic::Bmopa,
        Code::SmeBmopsS => Mnemonic::Bmops,
        Code::SmeF1cvtWiden => Mnemonic::F1cvt,
        Code::SmeF1cvtlWiden => Mnemonic::F1cvtl,
        Code::SmeF2cvtWiden => Mnemonic::F2cvt,
        Code::SmeF2cvtlWiden => Mnemonic::F2cvtl,
        Code::SmeFaddDDV2Go => Mnemonic::Fadd,
        Code::SmeFaddDDV4Go => Mnemonic::Fadd,
        Code::SmeFaddHHV2Go => Mnemonic::Fadd,
        Code::SmeFaddHHV4Go => Mnemonic::Fadd,
        Code::SmeFaddSSV2Go => Mnemonic::Fadd,
        Code::SmeFaddSSV4Go => Mnemonic::Fadd,
        Code::SmeFamaxMV2 => Mnemonic::Famax,
        Code::SmeFamaxMV4 => Mnemonic::Famax,
        Code::SmeFaminMV2 => Mnemonic::Famin,
        Code::SmeFaminMV4 => Mnemonic::Famin,
        Code::SmeFclampMV2 => Mnemonic::Fclamp,
        Code::SmeFclampMV4 => Mnemonic::Fclamp,
        Code::SmeFcvtNarrow => Mnemonic::Fcvt,
        Code::SmeFcvtNarrowFp8 => Mnemonic::Fcvt,
        Code::SmeFcvtWiden => Mnemonic::Fcvt,
        Code::SmeFcvtlWiden => Mnemonic::Fcvtl,
        Code::SmeFcvtnNarrowFp => Mnemonic::Fcvtn,
        Code::SmeFcvtnNarrowFp8 => Mnemonic::Fcvtn,
        Code::SmeFcvtzs => Mnemonic::Fcvtzs,
        Code::SmeFcvtzu => Mnemonic::Fcvtzu,
        Code::SmeFdotHBV2Gg => Mnemonic::Fdot,
        Code::SmeFdotHBV2Gi => Mnemonic::Fdot,
        Code::SmeFdotHBV2Gs => Mnemonic::Fdot,
        Code::SmeFdotHBV4Gg => Mnemonic::Fdot,
        Code::SmeFdotHBV4Gi => Mnemonic::Fdot,
        Code::SmeFdotHBV4Gs => Mnemonic::Fdot,
        Code::SmeFdotSBV2Gg => Mnemonic::Fdot,
        Code::SmeFdotSBV2Gi => Mnemonic::Fdot,
        Code::SmeFdotSBV2Gs => Mnemonic::Fdot,
        Code::SmeFdotSBV4Gg => Mnemonic::Fdot,
        Code::SmeFdotSBV4Gi => Mnemonic::Fdot,
        Code::SmeFdotSBV4Gs => Mnemonic::Fdot,
        Code::SmeFdotSHV2Gg => Mnemonic::Fdot,
        Code::SmeFdotSHV2Gi => Mnemonic::Fdot,
        Code::SmeFdotSHV2Gs => Mnemonic::Fdot,
        Code::SmeFdotSHV4Gg => Mnemonic::Fdot,
        Code::SmeFdotSHV4Gi => Mnemonic::Fdot,
        Code::SmeFdotSHV4Gs => Mnemonic::Fdot,
        Code::SmeFmaxMV2 => Mnemonic::Fmax,
        Code::SmeFmaxMV4 => Mnemonic::Fmax,
        Code::SmeFmaxMVS2 => Mnemonic::Fmax,
        Code::SmeFmaxMVS4 => Mnemonic::Fmax,
        Code::SmeFmaxnmMV2 => Mnemonic::Fmaxnm,
        Code::SmeFmaxnmMV4 => Mnemonic::Fmaxnm,
        Code::SmeFmaxnmMVS2 => Mnemonic::Fmaxnm,
        Code::SmeFmaxnmMVS4 => Mnemonic::Fmaxnm,
        Code::SmeFminMV2 => Mnemonic::Fmin,
        Code::SmeFminMV4 => Mnemonic::Fmin,
        Code::SmeFminMVS2 => Mnemonic::Fmin,
        Code::SmeFminMVS4 => Mnemonic::Fmin,
        Code::SmeFminnmMV2 => Mnemonic::Fminnm,
        Code::SmeFminnmMV4 => Mnemonic::Fminnm,
        Code::SmeFminnmMVS2 => Mnemonic::Fminnm,
        Code::SmeFminnmMVS4 => Mnemonic::Fminnm,
        Code::SmeFmlaDDOV2Gg => Mnemonic::Fmla,
        Code::SmeFmlaDDOV2Gi => Mnemonic::Fmla,
        Code::SmeFmlaDDOV2Gs => Mnemonic::Fmla,
        Code::SmeFmlaDDOV4Gg => Mnemonic::Fmla,
        Code::SmeFmlaDDOV4Gi => Mnemonic::Fmla,
        Code::SmeFmlaDDOV4Gs => Mnemonic::Fmla,
        Code::SmeFmlaHHOV2Gg => Mnemonic::Fmla,
        Code::SmeFmlaHHOV2Gi => Mnemonic::Fmla,
        Code::SmeFmlaHHOV2Gs => Mnemonic::Fmla,
        Code::SmeFmlaHHOV4Gg => Mnemonic::Fmla,
        Code::SmeFmlaHHOV4Gi => Mnemonic::Fmla,
        Code::SmeFmlaHHOV4Gs => Mnemonic::Fmla,
        Code::SmeFmlaSSOV2Gg => Mnemonic::Fmla,
        Code::SmeFmlaSSOV2Gi => Mnemonic::Fmla,
        Code::SmeFmlaSSOV2Gs => Mnemonic::Fmla,
        Code::SmeFmlaSSOV4Gg => Mnemonic::Fmla,
        Code::SmeFmlaSSOV4Gi => Mnemonic::Fmla,
        Code::SmeFmlaSSOV4Gs => Mnemonic::Fmla,
        Code::SmeFmlalHBTSi => Mnemonic::Fmlal,
        Code::SmeFmlalHBTSs => Mnemonic::Fmlal,
        Code::SmeFmlalHBTV2Gg => Mnemonic::Fmlal,
        Code::SmeFmlalHBTV2Gi => Mnemonic::Fmlal,
        Code::SmeFmlalHBTV2Gs => Mnemonic::Fmlal,
        Code::SmeFmlalHBTV4Gg => Mnemonic::Fmlal,
        Code::SmeFmlalHBTV4Gi => Mnemonic::Fmlal,
        Code::SmeFmlalHBTV4Gs => Mnemonic::Fmlal,
        Code::SmeFmlalSHTSi => Mnemonic::Fmlal,
        Code::SmeFmlalSHTSs => Mnemonic::Fmlal,
        Code::SmeFmlalSHTV2Gg => Mnemonic::Fmlal,
        Code::SmeFmlalSHTV2Gi => Mnemonic::Fmlal,
        Code::SmeFmlalSHTV2Gs => Mnemonic::Fmlal,
        Code::SmeFmlalSHTV4Gg => Mnemonic::Fmlal,
        Code::SmeFmlalSHTV4Gi => Mnemonic::Fmlal,
        Code::SmeFmlalSHTV4Gs => Mnemonic::Fmlal,
        Code::SmeFmlallSBQSi => Mnemonic::Fmlall,
        Code::SmeFmlallSBQSs => Mnemonic::Fmlall,
        Code::SmeFmlallSBQV2Gg => Mnemonic::Fmlall,
        Code::SmeFmlallSBQV2Gi => Mnemonic::Fmlall,
        Code::SmeFmlallSBQV2Gs => Mnemonic::Fmlall,
        Code::SmeFmlallSBQV4Gg => Mnemonic::Fmlall,
        Code::SmeFmlallSBQV4Gi => Mnemonic::Fmlall,
        _ => code_mnemonic_1(x),
    }
}

/// Continuation of [`code_mnemonic`].
pub open spec fn code_mnemonic_1(x: Code) -> Mnemonic {
    match x {
        Code::SmeFmlallSBQV4Gs => Mnemonic::Fmlall,
        Code::SmeFmlsDDOV2Gg => Mnemonic::Fmls,
        Code::SmeFmlsDDOV2Gi => Mnemonic::Fmls,
        Code::SmeFmlsDDOV2Gs => Mnemonic::Fmls,
        Code::SmeFmlsDDOV4Gg => Mnemonic::Fmls,
        Code::SmeFmlsDDOV4Gi => Mnemonic::Fmls,
        Code::SmeFmlsDDOV4Gs => Mnemonic::Fmls,
        Code::SmeFmlsHHOV2Gg => Mnemonic::Fmls,
        Code::SmeFmlsHHOV2Gi => Mnemonic::Fmls,
        Code::SmeFmlsHHOV2Gs => Mnemonic::Fmls,
        Code::SmeFmlsHHOV4Gg => Mnemonic::Fmls,
        Code::SmeFmlsHHOV4Gi => Mnemonic::Fmls,
        Code::SmeFmlsHHOV4Gs => Mnemonic::Fmls,
        Code::SmeFmlsSSOV2Gg => Mnemonic::Fmls,
        Code::SmeFmlsSSOV2Gi => Mnemonic::Fmls,
        Code::SmeFmlsSSOV2Gs => Mnemonic::Fmls,
        Code::SmeFmlsSSOV4Gg => Mnemonic::Fmls,
        Code::SmeFmlsSSOV4Gi => Mnemonic::Fmls,
        Code::SmeFmlsSSOV4Gs => Mnemonic::Fmls,
        Code::SmeFmlslSHTSi => Mnemonic::Fmlsl,
        Code::SmeFmlslSHTSs => Mnemonic::Fmlsl,
        Code::SmeFmlslSHTV2Gg => Mnemonic::Fmlsl,
        Code::SmeFmlslSHTV2Gi => Mnemonic::Fmlsl,
        Code::SmeFmlslSHTV2Gs => Mnemonic::Fmlsl,
        Code::SmeFmlslSHTV4Gg => Mnemonic::Fmlsl,
        Code::SmeFmlslSHTV4Gi => Mnemonic::Fmlsl,
        Code::SmeFmlslSHTV4Gs => Mnemonic::Fmlsl,
        Code::SmeFmop4aB => Mnemonic::Fmop4a,
        Code::SmeFmop4aBh => Mnemonic::Fmop4a,
        Code::SmeFmop4aD => Mnemonic::Fmop4a,
        Code::SmeFmop4aHh => Mnemonic::Fmop4a,
        Code::SmeFmop4aHs => Mnemonic::Fmop4a,
        Code::SmeFmop4aS => Mnemonic::Fmop4a,
        Code::SmeFmop4sD => Mnemonic::Fmop4s,
        Code::SmeFmop4sHh => Mnemonic::Fmop4s,
        Code::SmeFmop4sHs => Mnemonic::Fmop4s,
        Code::SmeFmop4sS => Mnemonic::Fmop4s,
        Code::SmeFmopaB => Mnemonic::Fmopa,
        Code::SmeFmopaBh => Mnemonic::Fmopa,
        Code::SmeFmopaD => Mnemonic::Fmopa,
        Code::SmeFmopaH => Mnemonic::Fmopa,
        Code::SmeFmopaHh => Mnemonic::Fmopa,
        Code::SmeFmopaS => Mnemonic::Fmopa,
        Code::SmeFmopsD => Mnemonic::Fmops,
        Code::SmeFmopsH => Mnemonic::Fmops,
        Code::SmeFmopsHh => Mnemonic::Fmops,
        Code::SmeFmopsS => Mnemonic::Fmops,
        Code::SmeFmulMV2 => Mnemonic::Fmul,
        Code::SmeFmulMV4 => Mnemonic::Fmul,
        Code::SmeFmulMVS2 => Mnemonic::Fmul,
        Code::SmeFmulMVS4 => Mnemonic::Fmul,
        Code::SmeFrinta => Mnemonic::Frinta,
        Code::SmeFrintm => Mnemonic::Frintm,
        Code::SmeFrintn => Mnemonic::Frintn,
        Code::SmeFrintp => Mnemonic::Frintp,
        Code::SmeFscaleMVMV2 => Mnemonic::Fscale,
        Code::SmeFscaleMVMV4 => Mnemonic::Fscale,
        Code::SmeFscaleMVS2 => Mnemonic::Fscale,
        Code::SmeFscaleMVS4 => Mnemonic::Fscale,
        Code::SmeFsubDDV2Go => Mnemonic::Fsub,
        Code::SmeFsubDDV4Go => Mnemonic::Fsub,
        Code::SmeFsubHHV2Go => Mnemonic::Fsub,
        Code::SmeFsubHHV4Go => Mnemonic::Fsub,
        Code::SmeFsubSSV2Go => Mnemonic::Fsub,
        Code::SmeFsubSSV4Go => Mnemonic::Fsub,
        Code::SmeFtmopaHB => Mnemonic::Ftmopa,
        Code::SmeFtmopaHH => Mnemonic::Ftmopa,
        Code::SmeFtmopaSB => Mnemonic::Ftmopa,
        Code::SmeFtmopaSH => Mnemonic::Ftmopa,
        Code::SmeFtmopaSS => Mnemonic::Ftmopa,
        Code::SmeFvdotHBV2Gi => Mnemonic::Fvdot,
        Code::SmeFvdotSHV2Gi => Mnemonic::Fvdot,
        Code::SmeFvdotbSBV4GiB => Mnemonic::Fvdotb,
        Code::SmeFvdottSBV4GiB => Mnemonic::Fvdott,
        Code::SmeLd1bMV => Mnemonic::Ld1b,
        Code::SmeLd1bZa => Mnemonic::Ld1b,
        Code::SmeLd1dMV => Mnemonic::Ld1d,
        Code::SmeLd1dZa => Mnemonic::Ld1d,
        Code::SmeLd1hMV => Mnemonic::Ld1h,
        Code::SmeLd1hZa => Mnemonic::Ld1h,
        Code::SmeLd1qZa => Mnemonic::Ld1q,
        Code::SmeLd1wMV => Mnemonic::Ld1w,
        Code::SmeLd1wZa => Mnemonic::Ld1w,
        Code::SmeLdnt1bMV => Mnemonic::Ldnt1b,
        Code::SmeLdnt1dMV => Mnemonic::Ldnt1d,
        Code::SmeLdnt1hMV => Mnemonic::Ldnt1h,
        Code::SmeLdnt1wMV => Mnemonic::Ldnt1w,
        Code::SmeLdrZa => Mnemonic::Ldr,
        Code::SmeLuti2Zt => Mnemonic::Luti2,
        Code::SmeLuti4Zt => Mnemonic::Luti4,
        Code::SmeLuti6 => Mnemonic::Luti6,
        Code::SmeLuti6Consec => Mnemonic::Luti6,
        Code::SmeLuti6Single => Mnemonic::Luti6,
        Code::SmeMovaArrayToVec => Mnemonic::Mova,
        Code::SmeMovaMultiTileToZ => Mnemonic::Mova,
        Code::SmeMovaMultiZToTile => Mnemonic::Mova,
        Code::SmeMovaTileToZ => Mnemonic::Mova,
        Code::SmeMovaVecToArray => Mnemonic::Mova,
        Code::SmeMovaZToTile => Mnemonic::Mova,
        Code::SmeMovazArrayToVec => Mnemonic::Movaz,
        Code::SmeMovazMultiTileToZ => Mnemonic::Movaz,
        Code::SmeMovazTileToZ => Mnemonic::Movaz,
        Code::SmeMovtXZt0 => Mnemonic::Movt,
        Code::SmeMovtZt0X => Mnemonic::Movt,
        Code::SmeMovtZt0Z => Mnemonic::Movt,
        Code::SmeSclampMV2 => Mnemonic::Sclamp,
        Code::SmeSclampMV4 => Mnemonic::Sclamp,
        Code::SmeScvtf => Mnemonic::Scvtf,
        Code::SmeSdotDHV2Gg => Mnemonic::Sdot,
        Code::SmeSdotDHV2Gi => Mnemonic::Sdot,
        Code::SmeSdotDHV2Gs => Mnemonic::Sdot,
        Code::SmeSdotDHV4Gg => Mnemonic::Sdot,
        Code::SmeSdotDHV4Gi => Mnemonic::Sdot,
        Code::SmeSdotDHV4Gs => Mnemonic::Sdot,
        Code::SmeSdotSBV2Gg => Mnemonic::Sdot,
        Code::SmeSdotSBV2Gi => Mnemonic::Sdot,
        Code::SmeSdotSBV2Gs => Mnemonic::Sdot,
        Code::SmeSdotSBV4Gg => Mnemonic::Sdot,
        Code::SmeSdotSBV4Gi => Mnemonic::Sdot,
        Code::SmeSdotSBV4Gs => Mnemonic::Sdot,
        Code::SmeSdotSHV2Gg => Mnemonic::Sdot,
        Code::SmeSdotSHV2Gi => Mnemonic::Sdot,
        Code::SmeSdotSHV2Gs => Mnemonic::Sdot,
        Code::SmeSdotSHV4Gg => Mnemonic::Sdot,
        Code::SmeSdotSHV4Gi => Mnemonic::Sdot,
        Code::SmeSdotSHV4Gs => Mnemonic::Sdot,
        Code::SmeSelMV2 => Mnemonic::Sel,
        Code::SmeSelMV4 => Mnemonic::Sel,
        Code::SmeSmaxMV2 => Mnemonic::Smax,
        Code::SmeSmaxMV4 => Mnemonic::Smax,
        Code::SmeSmaxMVS2 => Mnemonic::Smax,
        Code::SmeSmaxMVS4 => Mnemonic::Smax,
        Code::SmeSminMV2 => Mnemonic::Smin,
        Code::SmeSminMV4 => Mnemonic::Smin,
        Code::SmeSminMVS2 => Mnemonic::Smin,
        Code::SmeSminMVS4 => Mnemonic::Smin,
        Code::SmeSmlalSHTSi => Mnemonic::Smlal,
        Code::SmeSmlalSHTSs => Mnemonic::Smlal,
        Code::SmeSmlalSHTV2Gg => Mnemonic::Smlal,
        Code::SmeSmlalSHTV2Gi => Mnemonic::Smlal,
        Code::SmeSmlalSHTV2Gs => Mnemonic::Smlal,
        Code::SmeSmlalSHTV4Gg => Mnemonic::Smlal,
        Code::SmeSmlalSHTV4Gi => Mnemonic::Smlal,
        Code::SmeSmlalSHTV4Gs => Mnemonic::Smlal,
        Code::SmeSmlallDHQSi => Mnemonic::Smlall,
        Code::SmeSmlallDHQSs => Mnemonic::Smlall,
        Code::SmeSmlallDHQV2Gg => Mnemonic::Smlall,
        Code::SmeSmlallDHQV2Gi => Mnemonic::Smlall,
        Code::SmeSmlallDHQV2Gs => Mnemonic::Smlall,
        Code::SmeSmlallDHQV4Gg => Mnemonic::Smlall,
        Code::SmeSmlallDHQV4Gi => Mnemonic::Smlall,
        Code::SmeSmlallDHQV4Gs => Mnemonic::Smlall,
        Code::SmeSmlallSBQSi => Mnemonic::Smlall,
        Code::SmeSmlallSBQSs => Mnemonic::Smlall,
        Code::SmeSmlallSBQV2Gg => Mnemonic::Smlall,
        Code::SmeSmlallSBQV2Gi => Mnemonic::Smlall,
        Code::SmeSmlallSBQV2Gs => Mnemonic::Smlall,
        Code::SmeSmlallSBQV4Gg => Mnemonic::Smlall,
        Code::SmeSmlallSBQV4Gi => Mnemonic::Smlall,
        Code::SmeSmlallSBQV4Gs => Mnemonic::Smlall,
        Code::SmeSmlslSHTSi => Mnemonic::Smlsl,
        Code::SmeSmlslSHTSs => Mnemonic::Smlsl,
        Code::SmeSmlslSHTV2Gg => Mnemonic::Smlsl,
        Code::SmeSmlslSHTV2Gi => Mnemonic::Smlsl,
        Code::SmeSmlslSHTV2Gs => Mnemonic::Smlsl,
        Code::SmeSmlslSHTV4Gg => Mnemonic::Smlsl,
        Code::SmeSmlslSHTV4Gi => Mnemonic::Smlsl,
        Code::SmeSmlslSHTV4Gs => Mnemonic::Smlsl,
        Code::SmeSmlsllDHQSi => Mnemonic::Smlsll,
        Code::SmeSmlsllDHQSs => Mnemonic::Smlsll,
        Code::SmeSmlsllDHQV2Gg => Mnemonic::Smlsll,
        Code::SmeSmlsllDHQV2Gi => Mnemonic::Smlsll,
        Code::SmeSmlsllDHQV2Gs => Mnemonic::Smlsll,
        Code::SmeSmlsllDHQV4Gg => Mnemonic::Smlsll,
        Code::SmeSmlsllDHQV4Gi => Mnemonic::Smlsll,
        Code::SmeSmlsllDHQV4Gs => Mnemonic::Smlsll,
        Code::SmeSmlsllSBQSi => Mnemonic::Smlsll,
        Code::SmeSmlsllSBQSs => Mnemonic::Smlsll,
        Code::SmeSmlsllSBQV2Gg => Mnemonic::Smlsll,
        Code::SmeSmlsllSBQV2Gi => Mnemonic::Smlsll,
        Code::SmeSmlsllSBQV2Gs => Mnemonic::Smlsll,
        Code::SmeSmlsllSBQV4Gg => Mnemonic::Smlsll,
        Code::SmeSmlsllSBQV4Gi => Mnemonic::Smlsll,
        Code::SmeSmlsllSBQV4Gs => Mnemonic::Smlsll,
        Code::SmeSmop4aD => Mnemonic::Smop4a,
        Code::SmeSmop4aHs => Mnemonic::Smop4a,
        Code::SmeSmop4aS => Mnemonic::Smop4a,
        Code::SmeSmop4sD => Mnemonic::Smop4s,
        Code::SmeSmop4sHs => Mnemonic::Smop4s,
        Code::SmeSmop4sS => Mnemonic::Smop4s,
        Code::SmeSmopaD => Mnemonic::Smopa,
        Code::SmeSmopaHs => Mnemonic::Smopa,
        Code::SmeSmopaS => Mnemonic::Smopa,
        Code::SmeSmopsD => Mnemonic::Smops,
        Code::SmeSmopsHs => Mnemonic::Smops,
        Code::SmeSmopsS => Mnemonic::Smops,
        Code::SmeSqcvt => Mnemonic::Sqcvt,
        Code::SmeSqcvtnNarrow => Mnemonic::Sqcvtn,
        Code::SmeSqcvtu => Mnemonic::Sqcvtu,
        Code::SmeSqcvtunNarrow => Mnemonic::Sqcvtun,
        _ => code_mnemonic_2(x),
    }
}

/// Continuation of [`code_mnemonic`].
pub open spec fn code_mnemonic_2(x: Code) -> Mnemonic {
    match x {
        Code::SmeSqdmulhMV2 => Mnemonic::Sqdmulh,
        Code::SmeSqdmulhMV4 => Mnemonic::Sqdmulh,
        Code::SmeSqdmulhMVS2 => Mnemonic::Sqdmulh,
        Code::SmeSqdmulhMVS4 => Mnemonic::Sqdmulh,
        Code::SmeSqrshr => Mnemonic::Sqrshr,
        Code::SmeSqrshrV2 => Mnemonic::Sqrshr,
        Code::SmeSqrshrn => Mnemonic::Sqrshrn,
        Code::SmeSqrshru => Mnemonic::Sqrshru,
        Code::SmeSqrshruV2 => Mnemonic::Sqrshru,
        Code::SmeSqrshrun => Mnemonic::Sqrshrun,
        Code::SmeSrshlMV2 => Mnemonic::Srshl,
        Code::SmeSrshlMV4 => Mnemonic::Srshl,
        Code::SmeSrshlMVS2 => Mnemonic::Srshl,
        Code::SmeSrshlMVS4 => Mnemonic::Srshl,
        Code::SmeSt1bMV => Mnemonic::St1b,
        Code::SmeSt1bZa => Mnemonic::St1b,
        Code::SmeSt1dMV => Mnemonic::St1d,
        Code::SmeSt1dZa => Mnemonic::St1d,
        Code::SmeSt1hMV => Mnemonic::St1h,
        Code::SmeSt1hZa => Mnemonic::St1h,
        Code::SmeSt1qZa => Mnemonic::St1q,
        Code::SmeSt1wMV => Mnemonic::St1w,
        Code::SmeSt1wZa => Mnemonic::St1w,
        Code::SmeStmopaSB => Mnemonic::Stmopa,
        Code::SmeStmopaSH => Mnemonic::Stmopa,
        Code::SmeStnt1bMV => Mnemonic::Stnt1b,
        Code::SmeStnt1dMV => Mnemonic::Stnt1d,
        Code::SmeStnt1hMV => Mnemonic::Stnt1h,
        Code::SmeStnt1wMV => Mnemonic::Stnt1w,
        Code::SmeStrZa => Mnemonic::Str,
        Code::SmeSubDDV2Gg => Mnemonic::Sub,
        Code::SmeSubDDV2Go => Mnemonic::Sub,
        Code::SmeSubDDV2Gs => Mnemonic::Sub,
        Code::SmeSubDDV4Gg => Mnemonic::Sub,
        Code::SmeSubDDV4Go => Mnemonic::Sub,
        Code::SmeSubDDV4Gs => Mnemonic::Sub,
        Code::SmeSubSSV2Gg => Mnemonic::Sub,
        Code::SmeSubSSV2Go => Mnemonic::Sub,
        Code::SmeSubSSV2Gs => Mnemonic::Sub,
        Code::SmeSubSSV4Gg => Mnemonic::Sub,
        Code::SmeSubSSV4Go => Mnemonic::Sub,
        Code::SmeSubSSV4Gs => Mnemonic::Sub,
        Code::SmeSudotSBV2Gi => Mnemonic::Sudot,
        Code::SmeSudotSBV2Gs => Mnemonic::Sudot,
        Code::SmeSudotSBV4Gi => Mnemonic::Sudot,
        Code::SmeSudotSBV4Gs => Mnemonic::Sudot,
        Code::SmeSumlallSBQSi => Mnemonic::Sumlall,
        Code::SmeSumlallSBQV2Gi => Mnemonic::Sumlall,
        Code::SmeSumlallSBQV2Gs => Mnemonic::Sumlall,
        Code::SmeSumlallSBQV4Gi => Mnemonic::Sumlall,
        Code::SmeSumlallSBQV4Gs => Mnemonic::Sumlall,
        Code::SmeSumop4aD => Mnemonic::Sumop4a,
        Code::SmeSumop4aS => Mnemonic::Sumop4a,
        Code::SmeSumop4sD => Mnemonic::Sumop4s,
        Code::SmeSumop4sS => Mnemonic::Sumop4s,
        Code::SmeSumopaD => Mnemonic::Sumopa,
        Code::SmeSumopaS => Mnemonic::Sumopa,
        Code::SmeSumopsD => Mnemonic::Sumops,
        Code::SmeSumopsS => Mnemonic::Sumops,
        Code::SmeSunpk => Mnemonic::Sunpk,
        Code::SmeSutmopaSB => Mnemonic::Sutmopa,
        Code::SmeSuvdotSBV4Gi => Mnemonic::Suvdot,
        Code::SmeSvdotDHV4Gi => Mnemonic::Svdot,
        Code::SmeSvdotSBV4Gi => Mnemonic::Svdot,
        Code::SmeSvdotSHV2Gi => Mnemonic::Svdot,
        Code::SmeUclampMV2 => Mnemonic::Uclamp,
        Code::SmeUclampMV4 => Mnemonic::Uclamp,
        Code::SmeUcvtf => Mnemonic::Ucvtf,
        Code::SmeUdotDHV2Gg => Mnemonic::Udot,
        Code::SmeUdotDHV2Gi => Mnemonic::Udot,
        Code::SmeUdotDHV2Gs => Mnemonic::Udot,
        Code::SmeUdotDHV4Gg => Mnemonic::Udot,
        Code::SmeUdotDHV4Gi => Mnemonic::Udot,
        Code::SmeUdotDHV4Gs => Mnemonic::Udot,
        Code::SmeUdotSBV2Gg => Mnemonic::Udot,
        Code::SmeUdotSBV2Gi => Mnemonic::Udot,
        Code::SmeUdotSBV2Gs => Mnemonic::Udot,
        Code::SmeUdotSBV4Gg => Mnemonic::Udot,
        Code::SmeUdotSBV4Gi => Mnemonic::Udot,
        Code::SmeUdotSBV4Gs => Mnemonic::Udot,
        Code::SmeUdotSHV2Gg => Mnemonic::Udot,
        Code::SmeUdotSHV2Gi => Mnemonic::Udot,
        Code::SmeUdotSHV2Gs => Mnemonic::Udot,
        Code::SmeUdotSHV4Gg => Mnemonic::Udot,
        Code::SmeUdotSHV4Gi => Mnemonic::Udot,
        Code::SmeUdotSHV4Gs => Mnemonic::Udot,
        Code::SmeUmaxMV2 => Mnemonic::Umax,
        Code::SmeUmaxMV4 => Mnemonic::Umax,
        Code::SmeUmaxMVS2 => Mnemonic::Umax,
        Code::SmeUmaxMVS4 => Mnemonic::Umax,
        Code::SmeUminMV2 => Mnemonic::Umin,
        Code::SmeUminMV4 => Mnemonic::Umin,
        Code::SmeUminMVS2 => Mnemonic::Umin,
        Code::SmeUminMVS4 => Mnemonic::Umin,
        Code::SmeUmlalSHTSi => Mnemonic::Umlal,
        Code::SmeUmlalSHTSs => Mnemonic::Umlal,
        Code::SmeUmlalSHTV2Gg => Mnemonic::Umlal,
        Code::SmeUmlalSHTV2Gi => Mnemonic::Umlal,
        Code::SmeUmlalSHTV2Gs => Mnemonic::Umlal,
        Code::SmeUmlalSHTV4Gg => Mnemonic::Umlal,
        Code::SmeUmlalSHTV4Gi => Mnemonic::Umlal,
        Code::SmeUmlalSHTV4Gs => Mnemonic::Umlal,
        Code::SmeUmlallDHQSi => Mnemonic::Umlall,
        Code::SmeUmlallDHQSs => Mnemonic::Umlall,
        Code::SmeUmlallDHQV2Gg => Mnemonic::Umlall,
        Code::SmeUmlallDHQV2Gi => Mnemonic::Umlall,
        Code::SmeUmlallDHQV2Gs => Mnemonic::Umlall,
        Code::SmeUmlallDHQV4Gg => Mnemonic::Umlall,
        Code::SmeUmlallDHQV4Gi => Mnemonic::Umlall,
        Code::SmeUmlallDHQV4Gs => Mnemonic::Umlall,
        Code::SmeUmlallSBQSi => Mnemonic::Umlall,
        Code::SmeUmlallSBQSs => Mnemonic::Umlall,
        Code::SmeUmlallSBQV2Gg => Mnemonic::Umlall,
        Code::SmeUmlallSBQV2Gi => Mnemonic::Umlall,
        Code::SmeUmlallSBQV2Gs => Mnemonic::Umlall,
        Code::SmeUmlallSBQV4Gg => Mnemonic::Umlall,
        Code::SmeUmlallSBQV4Gi => Mnemonic::Umlall,
        Code::SmeUmlallSBQV4Gs => Mnemonic::Umlall,
        Code::SmeUmlslSHTSi => Mnemonic::Umlsl,
        Code::SmeUmlslSHTSs => Mnemonic::Umlsl,
        Code::SmeUmlslSHTV2Gg => Mnemonic::Umlsl,
        Code::SmeUmlslSHTV2Gi => Mnemonic::Umlsl,
        Code::SmeUmlslSHTV2Gs => Mnemonic::Umlsl,
        Code::SmeUmlslSHTV4Gg => Mnemonic::Umlsl,
        Code::SmeUmlslSHTV4Gi => Mnemonic::Umlsl,
        Code::SmeUmlslSHTV4Gs => Mnemonic::Umlsl,
        Code::SmeUmlsllDHQSi => Mnemonic::Umlsll,
        Code::SmeUmlsllDHQSs => Mnemonic::Umlsll,
        Code::SmeUmlsllDHQV2Gg => Mnemonic::Umlsll,
        Code::SmeUmlsllDHQV2Gi => Mnemonic::Umlsll,
        Code::SmeUmlsllDHQV2Gs => Mnemonic::Umlsll,
        Code::SmeUmlsllDHQV4Gg => Mnemonic::Umlsll,
        Code::SmeUmlsllDHQV4Gi => Mnemonic::Umlsll,
        Code::SmeUmlsllDHQV4Gs => Mnemonic::Umlsll,
        Code::SmeUmlsllSBQSi => Mnemonic::Umlsll,
        Code::SmeUmlsllSBQSs => Mnemonic::Umlsll,
        Code::SmeUmlsllSBQV2Gg => Mnemonic::Umlsll,
        Code::SmeUmlsllSBQV2Gi => Mnemonic::Umlsll,
        Code::SmeUmlsllSBQV2Gs => Mnemonic::Umlsll,
        Code::SmeUmlsllSBQV4Gg => Mnemonic::Umlsll,
        Code::SmeUmlsllSBQV4Gi => Mnemonic::Umlsll,
        Code::SmeUmlsllSBQV4Gs => Mnemonic::Umlsll,
        Code::SmeUmop4aD => Mnemonic::Umop4a,
        Code::SmeUmop4aHs => Mnemonic::Umop4a,
        Code::SmeUmop4aS => Mnemonic::Umop4a,
        Code::SmeUmop4sD => Mnemonic::Umop4s,
        Code::SmeUmop4sHs => Mnemonic::Umop4s,
        Code::SmeUmop4sS => Mnemonic::Umop4s,
        Code::SmeUmopaD => Mnemonic::Umopa,
        Code::SmeUmopaHs => Mnemonic::Umopa,
        Code::SmeUmopaS => Mnemonic::Umopa,
        Code::SmeUmopsD => Mnemonic::Umops,
        Code::SmeUmopsHs => Mnemonic::Umops,
        Code::SmeUmopsS => Mnemonic::Umops,
        Code::SmeUqcvt => Mnemonic::Uqcvt,
        Code::SmeUqcvtnNarrow => Mnemonic::Uqcvtn,
        Code::SmeUqrshr => Mnemonic::Uqrshr,
        Code::SmeUqrshrV2 => Mnemonic::Uqrshr,
        Code::SmeUqrshrn => Mnemonic::Uqrshrn,
        Code::SmeUrshlMV2 => Mnemonic::Urshl,
        Code::SmeUrshlMV4 => Mnemonic::Urshl,
        Code::SmeUrshlMVS2 => Mnemonic::Urshl,
        Code::SmeUrshlMVS4 => Mnemonic::Urshl,
        Code::SmeUsdotSBV2Gg => Mnemonic::Usdot,
        Code::SmeUsdotSBV2Gi => Mnemonic::Usdot,
        Code::SmeUsdotSBV2Gs => Mnemonic::Usdot,
        Code::SmeUsdotSBV4Gg => Mnemonic::Usdot,
        Code::SmeUsdotSBV4Gi => Mnemonic::Usdot,
        Code::SmeUsdotSBV4Gs => Mnemonic::Usdot,
        Code::SmeUsmlallSBQSi => Mnemonic::Usmlall,
        Code::SmeUsmlallSBQSs => Mnemonic::Usmlall,
        Code::SmeUsmlallSBQV2Gg => Mnemonic::Usmlall,
        Code::SmeUsmlallSBQV2Gi => Mnemonic::Usmlall,
        Code::SmeUsmlallSBQV2Gs => Mnemonic::Usmlall,
        Code::SmeUsmlallSBQV4Gg => Mnemonic::Usmlall,
        Code::SmeUsmlallSBQV4Gi => Mnemonic::Usmlall,
        Code::SmeUsmlallSBQV4Gs => Mnemonic::Usmlall,
        Code::SmeUsmop4aD => Mnemonic::Usmop4a,
        Code::SmeUsmop4aS => Mnemonic::Usmop4a,
        Code::SmeUsmop4sD => Mnemonic::Usmop4s,
        Code::SmeUsmop4sS => Mnemonic::Usmop4s,
        Code::SmeUsmopaD => Mnemonic::Usmopa,
        Code::SmeUsmopaS => Mnemonic::Usmopa,
        Code::SmeUsmopsD => Mnemonic::Usmops,
        Code::SmeUsmopsS => Mnemonic::Usmops,
        Code::SmeUstmopaSB => Mnemonic::Ustmopa,
        Code::SmeUsvdotSBV4Gi => Mnemonic::Usvdot,
        Code::SmeUtmopaSB => Mnemonic::Utmopa,
        Code::SmeUtmopaSH => Mnemonic::Utmopa,
        Code::SmeUunpk => Mnemonic::Uunpk,
        Code::SmeUvdotDHV4Gi => Mnemonic::Uvdot,
        Code::SmeUvdotSBV4Gi => Mnemonic::Uvdot,
        Code::SmeUvdotSHV2Gi => Mnemonic::Uvdot,
        Code::SmeUzpMV2 => Mnemonic::Uzp,
        Code::SmeUzpMV4 => Mnemonic::Uzp,
        Code::SmeZeroArray => Mnemonic::Zero,
        Code::SmeZeroMask => Mnemonic::Zero,
        Code::SmeZeroZt0 => Mnemonic::Zero,
        Code::SmeZipMV2 => Mnemonic::Zip,
        Code::SmeZipMV4 => Mnemonic::Zip,
        _ => code_mnemonic_3(x),
    }
}

/// Continuation of [`code_mnemonic`].
pub open spec fn code_mnemonic_3(x: Code) -> Mnemonic {
    match x {
        Code::SveAbaLong => Mnemonic::Aba,
        Code::SveAbaSame => Mnemonic::Aba,
        Code::SveAbdLong => Mnemonic::Abd,
        Code::SveAbsZpz => Mnemonic::Abs,
        Code::SveAdalp => Mnemonic::Adalp,
        Code::SveAddCarryLong => Mnemonic::Add,
        Code::SveAddHighNarrow => Mnemonic::Add,
        Code::SveAddLong => Mnemonic::Add,
        Code::SveAddLongBt => Mnemonic::Add,
        Code::SveAddWide => Mnemonic::Add,
        Code::SveAddZi => Mnemonic::Add,
        Code::SveAddZpzz => Mnemonic::Add,
        Code::SveAddZzz => Mnemonic::Add,
        Code::SveAddpl => Mnemonic::Addpl,
        Code::SveAddptPred => Mnemonic::Addpt,
        Code::SveAddptUnpred => Mnemonic::Addpt,
        Code::SveAddqv => Mnemonic::Addqv,
        Code::SveAddspl => Mnemonic::Addspl,
        Code::SveAddsvl => Mnemonic::Addsvl,
        Code::SveAddvl => Mnemonic::Addvl,
        Code::SveAdrSameScaled => Mnemonic::Adr,
        Code::SveAdrSxtw => Mnemonic::Adr,
        Code::SveAdrUxtw => Mnemonic::Adr,
        Code::SveAesMc => Mnemonic::Aes,
        Code::SveAesZz => Mnemonic::Aes,
        Code::SveAndZi => Mnemonic::And,
        Code::SveAndZpzz => Mnemonic::And,
        Code::SveAndZzz => Mnemonic::And,
        Code::SveAndqv => Mnemonic::Andqv,
        Code::SveAndv => Mnemonic::Andv,
        Code::SveAsrWide => Mnemonic::Asr,
        Code::SveAsrWidePred => Mnemonic::Asr,
        Code::SveAsrZi => Mnemonic::Asr,
        Code::SveAsrZpzi => Mnemonic::Asr,
        Code::SveAsrZpzz => Mnemonic::Asr,
        Code::SveAsrdZpzi => Mnemonic::Asrd,
        Code::SveAsrrZpzz => Mnemonic::Asrr,
        Code::SveBcax => Mnemonic::Bcax,
        Code::SveBfcvt => Mnemonic::Bfcvt,
        Code::SveBfcvtZ => Mnemonic::Bfcvt,
        Code::SveBfcvtnt => Mnemonic::Bfcvtnt,
        Code::SveBfdot => Mnemonic::Bfdot,
        Code::SveBfdotIdx => Mnemonic::Bfdot,
        Code::SveBfmlaIdx => Mnemonic::Bfmla,
        Code::SveBfmlalb => Mnemonic::Bfmlalb,
        Code::SveBfmlalbIdx => Mnemonic::Bfmlalb,
        Code::SveBfmlalt => Mnemonic::Bfmlalt,
        Code::SveBfmlaltIdx => Mnemonic::Bfmlalt,
        Code::SveBfmlsIdx => Mnemonic::Bfmls,
        Code::SveBfmmla => Mnemonic::Bfmmla,
        Code::SveBfmulIdx => Mnemonic::Bfmul,
        Code::SveBicZpzz => Mnemonic::Bic,
        Code::SveBicZzz => Mnemonic::Bic,
        Code::SveBitPerm => Mnemonic::Bit,
        Code::SveBrkPred => Mnemonic::Brk,
        Code::SveBrkn => Mnemonic::Brkn,
        Code::SveBrkpPred => Mnemonic::Brkp,
        Code::SveBsl => Mnemonic::Bsl,
        Code::SveBsl1n => Mnemonic::Bsl1n,
        Code::SveBsl2n => Mnemonic::Bsl2n,
        Code::SveCadd => Mnemonic::Cadd,
        Code::SveCdot => Mnemonic::Cdot,
        Code::SveCdotIdx => Mnemonic::Cdot,
        Code::SveClastR => Mnemonic::Clast,
        Code::SveClastV => Mnemonic::Clast,
        Code::SveClastZ => Mnemonic::Clast,
        Code::SveClsZpz => Mnemonic::Cls,
        Code::SveClzZpz => Mnemonic::Clz,
        Code::SveCmla => Mnemonic::Cmla,
        Code::SveCmlaIdx => Mnemonic::Cmla,
        Code::SveCmpZi => Mnemonic::Cmp,
        Code::SveCmpZw => Mnemonic::Cmp,
        Code::SveCmpZz => Mnemonic::Cmp,
        Code::SveCnotZpz => Mnemonic::Cnot,
        Code::SveCntElem => Mnemonic::Cnt,
        Code::SveCntZpz => Mnemonic::Cnt,
        Code::SveCntp => Mnemonic::Cntp,
        Code::SveCompact => Mnemonic::Compact,
        Code::SveCpyImmMerge => Mnemonic::Cpy,
        Code::SveCpyImmZero => Mnemonic::Cpy,
        Code::SveCpyScalar => Mnemonic::Cpy,
        Code::SveCpyVec => Mnemonic::Cpy,
        Code::SveCterm => Mnemonic::Cterm,
        Code::SveDotMixed => Mnemonic::Dot,
        Code::SveDupIdx => Mnemonic::Dup,
        Code::SveDupImm => Mnemonic::Dup,
        Code::SveDupScalar => Mnemonic::Dup,
        Code::SveDupmZi => Mnemonic::Dupm,
        Code::SveDupq => Mnemonic::Dupq,
        Code::SveEor3 => Mnemonic::Eor3,
        Code::SveEorInterleave => Mnemonic::Eor,
        Code::SveEorZi => Mnemonic::Eor,
        Code::SveEorZpzz => Mnemonic::Eor,
        Code::SveEorZzz => Mnemonic::Eor,
        Code::SveEorqv => Mnemonic::Eorqv,
        Code::SveEorv => Mnemonic::Eorv,
        Code::SveExpand => Mnemonic::Expand,
        Code::SveExtCon => Mnemonic::Ext,
        Code::SveExtDes => Mnemonic::Ext,
        Code::SveExtq => Mnemonic::Extq,
        Code::SveExtractNarrow => Mnemonic::Extract,
        Code::SveFabdZpzz => Mnemonic::Fabd,
        Code::SveFabsZpz => Mnemonic::Fabs,
        Code::SveFacgeZz => Mnemonic::Facge,
        Code::SveFacgtZz => Mnemonic::Facgt,
        Code::SveFaddZpzi => Mnemonic::Fadd,
        Code::SveFaddZpzz => Mnemonic::Fadd,
        Code::SveFaddZzz => Mnemonic::Fadd,
        Code::SveFadda => Mnemonic::Fadda,
        Code::SveFaddpZpzz => Mnemonic::Faddp,
        Code::SveFaddqv => Mnemonic::Faddqv,
        Code::SveFaddv => Mnemonic::Faddv,
        Code::SveFcadd => Mnemonic::Fcadd,
        Code::SveFcmeqZ0 => Mnemonic::Fcmeq,
        Code::SveFcmeqZz => Mnemonic::Fcmeq,
        Code::SveFcmgeZ0 => Mnemonic::Fcmge,
        Code::SveFcmgeZz => Mnemonic::Fcmge,
        Code::SveFcmgtZ0 => Mnemonic::Fcmgt,
        Code::SveFcmgtZz => Mnemonic::Fcmgt,
        Code::SveFcmlaIdx => Mnemonic::Fcmla,
        Code::SveFcmlaZpzzz => Mnemonic::Fcmla,
        Code::SveFcmleZ0 => Mnemonic::Fcmle,
        Code::SveFcmltZ0 => Mnemonic::Fcmlt,
        Code::SveFcmneZ0 => Mnemonic::Fcmne,
        Code::SveFcmneZz => Mnemonic::Fcmne,
        Code::SveFcmuoZz => Mnemonic::Fcmuo,
        Code::SveFcpy => Mnemonic::Fcpy,
        Code::SveFcvt => Mnemonic::Fcvt,
        Code::SveFcvtZ => Mnemonic::Fcvt,
        Code::SveFcvtlt => Mnemonic::Fcvtlt,
        Code::SveFcvtnt => Mnemonic::Fcvtnt,
        Code::SveFcvtx => Mnemonic::Fcvtx,
        Code::SveFcvtxZ => Mnemonic::Fcvtx,
        Code::SveFcvtxnt => Mnemonic::Fcvtxnt,
        Code::SveFcvtzs => Mnemonic::Fcvtzs,
        Code::SveFcvtzsZ => Mnemonic::Fcvtzs,
        Code::SveFcvtzu => Mnemonic::Fcvtzu,
        Code::SveFcvtzuZ => Mnemonic::Fcvtzu,
        Code::SveFdivZpzz => Mnemonic::Fdiv,
        Code::SveFdivrZpzz => Mnemonic::Fdivr,
        Code::SveFdup => Mnemonic::Fdup,
        Code::SveFexpa => Mnemonic::Fexpa,
        Code::SveFirstp => Mnemonic::Firstp,
        Code::SveFlogbZ => Mnemonic::Flogb,
        Code::SveFlogbZpz => Mnemonic::Flogb,
        Code::SveFmadZpzzz => Mnemonic::Fmad,
        Code::SveFmaxZpzi => Mnemonic::Fmax,
        Code::SveFmaxZpzz => Mnemonic::Fmax,
        Code::SveFmaxnmZpzi => Mnemonic::Fmaxnm,
        Code::SveFmaxnmZpzz => Mnemonic::Fmaxnm,
        Code::SveFmaxnmpZpzz => Mnemonic::Fmaxnmp,
        Code::SveFmaxnmqv => Mnemonic::Fmaxnmqv,
        Code::SveFmaxnmv => Mnemonic::Fmaxnmv,
        Code::SveFmaxpZpzz => Mnemonic::Fmaxp,
        Code::SveFmaxqv => Mnemonic::Fmaxqv,
        Code::SveFmaxv => Mnemonic::Fmaxv,
        Code::SveFminZpzi => Mnemonic::Fmin,
        Code::SveFminZpzz => Mnemonic::Fmin,
        Code::SveFminnmZpzi => Mnemonic::Fminnm,
        Code::SveFminnmZpzz => Mnemonic::Fminnm,
        Code::SveFminnmpZpzz => Mnemonic::Fminnmp,
        Code::SveFminnmqv => Mnemonic::Fminnmqv,
        Code::SveFminnmv => Mnemonic::Fminnmv,
        Code::SveFminpZpzz => Mnemonic::Fminp,
        Code::SveFminqv => Mnemonic::Fminqv,
        Code::SveFminv => Mnemonic::Fminv,
        Code::SveFmlaIdx => Mnemonic::Fmla,
        Code::SveFmlaZpzzz => Mnemonic::Fmla,
        Code::SveFmlalb => Mnemonic::Fmlalb,
        Code::SveFmlalbFp8Idx => Mnemonic::Fmlalb,
        Code::SveFmlalbIdx => Mnemonic::Fmlalb,
        Code::SveFmlallbbFp8Idx => Mnemonic::Fmlallbb,
        Code::SveFmlallbtFp8Idx => Mnemonic::Fmlallbt,
        Code::SveFmlalltbFp8Idx => Mnemonic::Fmlalltb,
        Code::SveFmlallttFp8Idx => Mnemonic::Fmlalltt,
        Code::SveFmlalt => Mnemonic::Fmlalt,
        Code::SveFmlaltFp8Idx => Mnemonic::Fmlalt,
        Code::SveFmlaltIdx => Mnemonic::Fmlalt,
        Code::SveFmlsIdx => Mnemonic::Fmls,
        Code::SveFmlsZpzzz => Mnemonic::Fmls,
        Code::SveFmlslb => Mnemonic::Fmlslb,
        Code::SveFmlslbIdx => Mnemonic::Fmlslb,
        Code::SveFmlslt => Mnemonic::Fmlslt,
        Code::SveFmlsltIdx => Mnemonic::Fmlslt,
        Code::SveFmmla => Mnemonic::Fmmla,
        Code::SveFmsbZpzzz => Mnemonic::Fmsb,
        Code::SveFmulIdx => Mnemonic::Fmul,
        Code::SveFmulZpzi => Mnemonic::Fmul,
        Code::SveFmulZpzz => Mnemonic::Fmul,
        Code::SveFmulZzz => Mnemonic::Fmul,
        Code::SveFmulxZpzz => Mnemonic::Fmulx,
        Code::SveFnegZpz => Mnemonic::Fneg,
        Code::SveFnmadZpzzz => Mnemonic::Fnmad,
        Code::SveFnmlaZpzzz => Mnemonic::Fnmla,
        Code::SveFnmlsZpzzz => Mnemonic::Fnmls,
        Code::SveFnmsbZpzzz => Mnemonic::Fnmsb,
        Code::SveFrecpe => Mnemonic::Frecpe,
        Code::SveFrecpsZzz => Mnemonic::Frecps,
        Code::SveFrecpxZ => Mnemonic::Frecpx,
        Code::SveFrecpxZpz => Mnemonic::Frecpx,
        _ => code_mnemonic_4(x),
    }
}

/// Continuation of [`code_mnemonic`].
pub open spec fn code_mnemonic_4(x: Code) -> Mnemonic {
    match x {
        Code::SveFrintaZ => Mnemonic::Frinta,
        Code::SveFrintaZpz => Mnemonic::Frinta,
        Code::SveFrintiZ => Mnemonic::Frinti,
        Code::SveFrintiZpz => Mnemonic::Frinti,
        Code::SveFrintmZ => Mnemonic::Frintm,
        Code::SveFrintmZpz => Mnemonic::Frintm,
        Code::SveFrintnZ => Mnemonic::Frintn,
        Code::SveFrintnZpz => Mnemonic::Frintn,
        Code::SveFrintpZ => Mnemonic::Frintp,
        Code::SveFrintpZpz => Mnemonic::Frintp,
        Code::SveFrintxZ => Mnemonic::Frintx,
        Code::SveFrintxZpz => Mnemonic::Frintx,
        Code::SveFrintzZ => Mnemonic::Frintz,
        Code::SveFrintzZpz => Mnemonic::Frintz,
        Code::SveFrsqrte => Mnemonic::Frsqrte,
        Code::SveFrsqrtsZzz => Mnemonic::Frsqrts,
        Code::SveFscaleZpzz => Mnemonic::Fscale,
        Code::SveFsqrtZ => Mnemonic::Fsqrt,
        Code::SveFsqrtZpz => Mnemonic::Fsqrt,
        Code::SveFsubZpzi => Mnemonic::Fsub,
        Code::SveFsubZpzz => Mnemonic::Fsub,
        Code::SveFsubZzz => Mnemonic::Fsub,
        Code::SveFsubrZpzi => Mnemonic::Fsubr,
        Code::SveFsubrZpzz => Mnemonic::Fsubr,
        Code::SveFtmad => Mnemonic::Ftmad,
        Code::SveFtsmulZzz => Mnemonic::Ftsmul,
        Code::SveFtssel => Mnemonic::Ftssel,
        Code::SveHalvingZpzz => Mnemonic::Halving,
        Code::SveHistcnt => Mnemonic::Histcnt,
        Code::SveHistseg => Mnemonic::Histseg,
        Code::SveIncDecPScalar => Mnemonic::Inc,
        Code::SveIncDecPVector => Mnemonic::Inc,
        Code::SveIncDecScalar => Mnemonic::Inc,
        Code::SveIncDecVector => Mnemonic::Inc,
        Code::SveIndexImmImm => Mnemonic::Index,
        Code::SveIndexIr => Mnemonic::Index,
        Code::SveIndexRi => Mnemonic::Index,
        Code::SveIndexRr => Mnemonic::Index,
        Code::SveInsrScalar => Mnemonic::Insr,
        Code::SveInsrVec => Mnemonic::Insr,
        Code::SveLastR => Mnemonic::Last,
        Code::SveLastV => Mnemonic::Last,
        Code::SveLastp => Mnemonic::Lastp,
        Code::SveLd1bG32 => Mnemonic::Ld1b,
        Code::SveLd1bG64 => Mnemonic::Ld1b,
        Code::SveLd1bImm => Mnemonic::Ld1b,
        Code::SveLd1bSs => Mnemonic::Ld1b,
        Code::SveLd1bVi => Mnemonic::Ld1b,
        Code::SveLd1dG32 => Mnemonic::Ld1d,
        Code::SveLd1dG64 => Mnemonic::Ld1d,
        Code::SveLd1dImm => Mnemonic::Ld1d,
        Code::SveLd1dSs => Mnemonic::Ld1d,
        Code::SveLd1dVi => Mnemonic::Ld1d,
        Code::SveLd1dqImm => Mnemonic::Ld1d,
        Code::SveLd1dqSs => Mnemonic::Ld1d,
        Code::SveLd1hG32 => Mnemonic::Ld1h,
        Code::SveLd1hG64 => Mnemonic::Ld1h,
        Code::SveLd1hImm => Mnemonic::Ld1h,
        Code::SveLd1hSs => Mnemonic::Ld1h,
        Code::SveLd1hVi => Mnemonic::Ld1h,
        Code::SveLd1qG => Mnemonic::Ld1q,
        Code::SveLd1rbImm => Mnemonic::Ld1rb,
        Code::SveLd1rdImm => Mnemonic::Ld1rd,
        Code::SveLd1rhImm => Mnemonic::Ld1rh,
        Code::SveLd1robImm => Mnemonic::Ld1rob,
        Code::SveLd1robSs => Mnemonic::Ld1rob,
        Code::SveLd1rodImm => Mnemonic::Ld1rod,
        Code::SveLd1rodSs => Mnemonic::Ld1rod,
        Code::SveLd1rohImm => Mnemonic::Ld1roh,
        Code::SveLd1rohSs => Mnemonic::Ld1roh,
        Code::SveLd1rowImm => Mnemonic::Ld1row,
        Code::SveLd1rowSs => Mnemonic::Ld1row,
        Code::SveLd1rqbImm => Mnemonic::Ld1rqb,
        Code::SveLd1rqbSs => Mnemonic::Ld1rqb,
        Code::SveLd1rqdImm => Mnemonic::Ld1rqd,
        Code::SveLd1rqdSs => Mnemonic::Ld1rqd,
        Code::SveLd1rqhImm => Mnemonic::Ld1rqh,
        Code::SveLd1rqhSs => Mnemonic::Ld1rqh,
        Code::SveLd1rqwImm => Mnemonic::Ld1rqw,
        Code::SveLd1rqwSs => Mnemonic::Ld1rqw,
        Code::SveLd1rsbImm => Mnemonic::Ld1rsb,
        Code::SveLd1rshImm => Mnemonic::Ld1rsh,
        Code::SveLd1rswImm => Mnemonic::Ld1rsw,
        Code::SveLd1rwImm => Mnemonic::Ld1rw,
        Code::SveLd1sbG32 => Mnemonic::Ld1sb,
        Code::SveLd1sbG64 => Mnemonic::Ld1sb,
        Code::SveLd1sbImm => Mnemonic::Ld1sb,
        Code::SveLd1sbSs => Mnemonic::Ld1sb,
        Code::SveLd1sbVi => Mnemonic::Ld1sb,
        Code::SveLd1shG32 => Mnemonic::Ld1sh,
        Code::SveLd1shG64 => Mnemonic::Ld1sh,
        Code::SveLd1shImm => Mnemonic::Ld1sh,
        Code::SveLd1shSs => Mnemonic::Ld1sh,
        Code::SveLd1shVi => Mnemonic::Ld1sh,
        Code::SveLd1swG32 => Mnemonic::Ld1sw,
        Code::SveLd1swG64 => Mnemonic::Ld1sw,
        Code::SveLd1swImm => Mnemonic::Ld1sw,
        Code::SveLd1swSs => Mnemonic::Ld1sw,
        Code::SveLd1swVi => Mnemonic::Ld1sw,
        Code::SveLd1wG32 => Mnemonic::Ld1w,
        Code::SveLd1wG64 => Mnemonic::Ld1w,
        Code::SveLd1wImm => Mnemonic::Ld1w,
        Code::SveLd1wSs => Mnemonic::Ld1w,
        Code::SveLd1wVi => Mnemonic::Ld1w,
        Code::SveLd1wqImm => Mnemonic::Ld1w,
        Code::SveLd1wqSs => Mnemonic::Ld1w,
        Code::SveLd2bImm => Mnemonic::Ld2b,
        Code::SveLd2bSs => Mnemonic::Ld2b,
        Code::SveLd2dImm => Mnemonic::Ld2d,
        Code::SveLd2dSs => Mnemonic::Ld2d,
        Code::SveLd2hImm => Mnemonic::Ld2h,
        Code::SveLd2hSs => Mnemonic::Ld2h,
        Code::SveLd2qImm => Mnemonic::Ld2q,
        Code::SveLd2qSs => Mnemonic::Ld2q,
        Code::SveLd2wImm => Mnemonic::Ld2w,
        Code::SveLd2wSs => Mnemonic::Ld2w,
        Code::SveLd3bImm => Mnemonic::Ld3b,
        Code::SveLd3bSs => Mnemonic::Ld3b,
        Code::SveLd3dImm => Mnemonic::Ld3d,
        Code::SveLd3dSs => Mnemonic::Ld3d,
        Code::SveLd3hImm => Mnemonic::Ld3h,
        Code::SveLd3hSs => Mnemonic::Ld3h,
        Code::SveLd3qImm => Mnemonic::Ld3q,
        Code::SveLd3qSs => Mnemonic::Ld3q,
        Code::SveLd3wImm => Mnemonic::Ld3w,
        Code::SveLd3wSs => Mnemonic::Ld3w,
        Code::SveLd4bImm => Mnemonic::Ld4b,
        Code::SveLd4bSs => Mnemonic::Ld4b,
        Code::SveLd4dImm => Mnemonic::Ld4d,
        Code::SveLd4dSs => Mnemonic::Ld4d,
        Code::SveLd4hImm => Mnemonic::Ld4h,
        Code::SveLd4hSs => Mnemonic::Ld4h,
        Code::SveLd4qImm => Mnemonic::Ld4q,
        Code::SveLd4qSs => Mnemonic::Ld4q,
        Code::SveLd4wImm => Mnemonic::Ld4w,
        Code::SveLd4wSs => Mnemonic::Ld4w,
        Code::SveLdff1bG32 => Mnemonic::Ldff1b,
        Code::SveLdff1bG64 => Mnemonic::Ldff1b,
        Code::SveLdff1bSs => Mnemonic::Ldff1b,
        Code::SveLdff1bVi => Mnemonic::Ldff1b,
        Code::SveLdff1dG32 => Mnemonic::Ldff1d,
        Code::SveLdff1dG64 => Mnemonic::Ldff1d,
        Code::SveLdff1dSs => Mnemonic::Ldff1d,
        Code::SveLdff1dVi => Mnemonic::Ldff1d,
        Code::SveLdff1hG32 => Mnemonic::Ldff1h,
        Code::SveLdff1hG64 => Mnemonic::Ldff1h,
        Code::SveLdff1hSs => Mnemonic::Ldff1h,
        Code::SveLdff1hVi => Mnemonic::Ldff1h,
        Code::SveLdff1sbG32 => Mnemonic::Ldff1sb,
        Code::SveLdff1sbG64 => Mnemonic::Ldff1sb,
        Code::SveLdff1sbSs => Mnemonic::Ldff1sb,
        Code::SveLdff1sbVi => Mnemonic::Ldff1sb,
        Code::SveLdff1shG32 => Mnemonic::Ldff1sh,
        Code::SveLdff1shG64 => Mnemonic::Ldff1sh,
        Code::SveLdff1shSs => Mnemonic::Ldff1sh,
        Code::SveLdff1shVi => Mnemonic::Ldff1sh,
        Code::SveLdff1swG32 => Mnemonic::Ldff1sw,
        Code::SveLdff1swG64 => Mnemonic::Ldff1sw,
        Code::SveLdff1swSs => Mnemonic::Ldff1sw,
        Code::SveLdff1swVi => Mnemonic::Ldff1sw,
        Code::SveLdff1wG32 => Mnemonic::Ldff1w,
        Code::SveLdff1wG64 => Mnemonic::Ldff1w,
        Code::SveLdff1wSs => Mnemonic::Ldff1w,
        Code::SveLdff1wVi => Mnemonic::Ldff1w,
        Code::SveLdnf1bImm => Mnemonic::Ldnf1b,
        Code::SveLdnf1dImm => Mnemonic::Ldnf1d,
        Code::SveLdnf1hImm => Mnemonic::Ldnf1h,
        Code::SveLdnf1sbImm => Mnemonic::Ldnf1sb,
        Code::SveLdnf1shImm => Mnemonic::Ldnf1sh,
        Code::SveLdnf1swImm => Mnemonic::Ldnf1sw,
        Code::SveLdnf1wImm => Mnemonic::Ldnf1w,
        Code::SveLdnt1bImm => Mnemonic::Ldnt1b,
        Code::SveLdnt1bSs => Mnemonic::Ldnt1b,
        Code::SveLdnt1bVs => Mnemonic::Ldnt1b,
        Code::SveLdnt1dImm => Mnemonic::Ldnt1d,
        Code::SveLdnt1dSs => Mnemonic::Ldnt1d,
        Code::SveLdnt1dVs => Mnemonic::Ldnt1d,
        Code::SveLdnt1hImm => Mnemonic::Ldnt1h,
        Code::SveLdnt1hSs => Mnemonic::Ldnt1h,
        Code::SveLdnt1hVs => Mnemonic::Ldnt1h,
        Code::SveLdnt1sbImm => Mnemonic::Ldnt1sb,
        Code::SveLdnt1sbSs => Mnemonic::Ldnt1sb,
        Code::SveLdnt1sbVs => Mnemonic::Ldnt1sb,
        Code::SveLdnt1shImm => Mnemonic::Ldnt1sh,
        Code::SveLdnt1shSs => Mnemonic::Ldnt1sh,
        Code::SveLdnt1shVs => Mnemonic::Ldnt1sh,
        Code::SveLdnt1swImm => Mnemonic::Ldnt1sw,
        Code::SveLdnt1swSs => Mnemonic::Ldnt1sw,
        Code::SveLdnt1swVs => Mnemonic::Ldnt1sw,
        Code::SveLdnt1wImm => Mnemonic::Ldnt1w,
        Code::SveLdnt1wSs => Mnemonic::Ldnt1w,
        Code::SveLdnt1wVs => Mnemonic::Ldnt1w,
        Code::SveLdrP => Mnemonic::Ldr,
        Code::SveLdrZ => Mnemonic::Ldr,
        Code::SveLslWide => Mnemonic::Lsl,
        Code::SveLslWidePred => Mnemonic::Lsl,
        Code::SveLslZi => Mnemonic::Lsl,
        Code::SveLslZpzi => Mnemonic::Lsl,
        Code::SveLslZpzz => Mnemonic::Lsl,
        Code::SveLslrZpzz => Mnemonic::Lslr,
        _ => code_mnemonic_5(x),
    }
}

/// Continuation of [`code_mnemonic`].
pub open spec fn code_mnemonic_5(x: Code) -> Mnemonic {
    match x {
        Code::SveLsrWide => Mnemonic::Lsr,
        Code::SveLsrWidePred => Mnemonic::Lsr,
        Code::SveLsrZi => Mnemonic::Lsr,
        Code::SveLsrZpzi => Mnemonic::Lsr,
        Code::SveLsrZpzz => Mnemonic::Lsr,
        Code::SveLsrrZpzz => Mnemonic::Lsrr,
        Code::SveLuti2 => Mnemonic::Luti2,
        Code::SveLuti4 => Mnemonic::Luti4,
        Code::SveLuti4Two => Mnemonic::Luti4,
        Code::SveMadZpzzz => Mnemonic::Mad,
        Code::SveMatch => Mnemonic::Match,
        Code::SveMatmulInt => Mnemonic::Matmul,
        Code::SveMlaIdx => Mnemonic::Mla,
        Code::SveMlaLong => Mnemonic::Mla,
        Code::SveMlaLongIdx => Mnemonic::Mla,
        Code::SveMlaZpzzz => Mnemonic::Mla,
        Code::SveMlsIdx => Mnemonic::Mls,
        Code::SveMlsZpzzz => Mnemonic::Mls,
        Code::SveMovZzz => Mnemonic::Mov,
        Code::SveMovprfxZpz => Mnemonic::Movprfx,
        Code::SveMovprfxZz => Mnemonic::Movprfx,
        Code::SveMsbZpzzz => Mnemonic::Msb,
        Code::SveMulIdx => Mnemonic::Mul,
        Code::SveMulLong => Mnemonic::Mul,
        Code::SveMulLongIdx => Mnemonic::Mul,
        Code::SveMulZi => Mnemonic::Mul,
        Code::SveMulZpzz => Mnemonic::Mul,
        Code::SveMulZzz => Mnemonic::Mul,
        Code::SveNbsl => Mnemonic::Nbsl,
        Code::SveNegZpz => Mnemonic::Neg,
        Code::SveNotZpz => Mnemonic::Not,
        Code::SveOrqv => Mnemonic::Orqv,
        Code::SveOrrZi => Mnemonic::Orr,
        Code::SveOrrZpzz => Mnemonic::Orr,
        Code::SveOrrZzz => Mnemonic::Orr,
        Code::SveOrv => Mnemonic::Orv,
        Code::SvePairZpzz => Mnemonic::Pair,
        Code::SvePfalse => Mnemonic::Pfalse,
        Code::SvePfirst => Mnemonic::Pfirst,
        Code::SvePmov => Mnemonic::Pmov,
        Code::SvePmulLong => Mnemonic::Pmul,
        Code::SvePmulZzz => Mnemonic::Pmul,
        Code::SvePnext => Mnemonic::Pnext,
        Code::SvePredLogical => Mnemonic::Pred,
        Code::SvePrfbG32 => Mnemonic::Prfb,
        Code::SvePrfbG64 => Mnemonic::Prfb,
        Code::SvePrfbImm => Mnemonic::Prfb,
        Code::SvePrfbSs => Mnemonic::Prfb,
        Code::SvePrfbVi => Mnemonic::Prfb,
        Code::SvePrfdG32 => Mnemonic::Prfd,
        Code::SvePrfdG64 => Mnemonic::Prfd,
        Code::SvePrfdImm => Mnemonic::Prfd,
        Code::SvePrfdSs => Mnemonic::Prfd,
        Code::SvePrfdVi => Mnemonic::Prfd,
        Code::SvePrfhG32 => Mnemonic::Prfh,
        Code::SvePrfhG64 => Mnemonic::Prfh,
        Code::SvePrfhImm => Mnemonic::Prfh,
        Code::SvePrfhSs => Mnemonic::Prfh,
        Code::SvePrfhVi => Mnemonic::Prfh,
        Code::SvePrfwG32 => Mnemonic::Prfw,
        Code::SvePrfwG64 => Mnemonic::Prfw,
        Code::SvePrfwImm => Mnemonic::Prfw,
        Code::SvePrfwSs => Mnemonic::Prfw,
        Code::SvePrfwVi => Mnemonic::Prfw,
        Code::SvePsel => Mnemonic::Psel,
        Code::SvePtest => Mnemonic::Ptest,
        Code::SvePtrue => Mnemonic::Ptrue,
        Code::SvePunpk => Mnemonic::Punpk,
        Code::SveRax1 => Mnemonic::Rax1,
        Code::SveRbitZpz => Mnemonic::Rbit,
        Code::SveRdffr => Mnemonic::Rdffr,
        Code::SveRdffrPred => Mnemonic::Rdffr,
        Code::SveRdsvl => Mnemonic::Rdsvl,
        Code::SveRdvl => Mnemonic::Rdvl,
        Code::SveRecipEst => Mnemonic::Recip,
        Code::SveRevP => Mnemonic::Rev,
        Code::SveRevZz => Mnemonic::Rev,
        Code::SveRevbhw => Mnemonic::Revbhw,
        Code::SveRevdZpzZero => Mnemonic::Revd,
        Code::SveSabal => Mnemonic::Sabal,
        Code::SveSabdZpzz => Mnemonic::Sabd,
        Code::SveSaddv => Mnemonic::Saddv,
        Code::SveSatRoundZpzz => Mnemonic::Sat,
        Code::SveSatUnaryZpz => Mnemonic::Sat,
        Code::SveSclamp => Mnemonic::Sclamp,
        Code::SveScvtf => Mnemonic::Scvtf,
        Code::SveScvtfZ => Mnemonic::Scvtf,
        Code::SveSdivZpzz => Mnemonic::Sdiv,
        Code::SveSdivrZpzz => Mnemonic::Sdivr,
        Code::SveSdot => Mnemonic::Sdot,
        Code::SveSdotH => Mnemonic::Sdot,
        Code::SveSdotHIdx => Mnemonic::Sdot,
        Code::SveSdotIdx => Mnemonic::Sdot,
        Code::SveSelPred => Mnemonic::Sel,
        Code::SveSelZpzz => Mnemonic::Sel,
        Code::SveSetffr => Mnemonic::Setffr,
        Code::SveShiftAccum => Mnemonic::Shift,
        Code::SveShiftInsert => Mnemonic::Shift,
        Code::SveShiftLongImm => Mnemonic::Shift,
        Code::SveShiftNarrow => Mnemonic::Shift,
        Code::SveSm4e => Mnemonic::Sm4e,
        Code::SveSm4ekey => Mnemonic::Sm4ekey,
        Code::SveSmaxZi => Mnemonic::Smax,
        Code::SveSmaxZpzz => Mnemonic::Smax,
        Code::SveSmaxqv => Mnemonic::Smaxqv,
        Code::SveSmaxv => Mnemonic::Smaxv,
        Code::SveSminZi => Mnemonic::Smin,
        Code::SveSminZpzz => Mnemonic::Smin,
        Code::SveSminqv => Mnemonic::Sminqv,
        Code::SveSminv => Mnemonic::Sminv,
        Code::SveSmulhZpzz => Mnemonic::Smulh,
        Code::SveSmulhZzz => Mnemonic::Smulh,
        Code::SveSpliceCon => Mnemonic::Splice,
        Code::SveSpliceDes => Mnemonic::Splice,
        Code::SveSqIncDecPScalarSx => Mnemonic::Sq,
        Code::SveSqIncDecScalarSx => Mnemonic::Sq,
        Code::SveSqaddZi => Mnemonic::Sqadd,
        Code::SveSqaddZzz => Mnemonic::Sqadd,
        Code::SveSqcadd => Mnemonic::Sqcadd,
        Code::SveSqdmlalLong => Mnemonic::Sqdmlal,
        Code::SveSqdmlalLongBt => Mnemonic::Sqdmlal,
        Code::SveSqdmlalLongIdx => Mnemonic::Sqdmlal,
        Code::SveSqdmulLong => Mnemonic::Sqdmul,
        Code::SveSqdmulLongIdx => Mnemonic::Sqdmul,
        Code::SveSqdmulhIdx => Mnemonic::Sqdmulh,
        Code::SveSqrdcmlah => Mnemonic::Sqrdcmlah,
        Code::SveSqrdcmlahIdx => Mnemonic::Sqrdcmlah,
        Code::SveSqrdmlah => Mnemonic::Sqrdmlah,
        Code::SveSqrdmlahIdx => Mnemonic::Sqrdmlah,
        Code::SveSqrdmlsh => Mnemonic::Sqrdmlsh,
        Code::SveSqrdmlshIdx => Mnemonic::Sqrdmlsh,
        Code::SveSqrdmulhIdx => Mnemonic::Sqrdmulh,
        Code::SveSqsubZi => Mnemonic::Sqsub,
        Code::SveSqsubZzz => Mnemonic::Sqsub,
        Code::SveSt1bG32 => Mnemonic::St1b,
        Code::SveSt1bG64 => Mnemonic::St1b,
        Code::SveSt1bImm => Mnemonic::St1b,
        Code::SveSt1bSs => Mnemonic::St1b,
        Code::SveSt1bVi => Mnemonic::St1b,
        Code::SveSt1dG32 => Mnemonic::St1d,
        Code::SveSt1dG64 => Mnemonic::St1d,
        Code::SveSt1dImm => Mnemonic::St1d,
        Code::SveSt1dSs => Mnemonic::St1d,
        Code::SveSt1dVi => Mnemonic::St1d,
        Code::SveSt1dqImm => Mnemonic::St1d,
        Code::SveSt1dqSs => Mnemonic::St1d,
        Code::SveSt1hG32 => Mnemonic::St1h,
        Code::SveSt1hG64 => Mnemonic::St1h,
        Code::SveSt1hImm => Mnemonic::St1h,
        Code::SveSt1hSs => Mnemonic::St1h,
        Code::SveSt1hVi => Mnemonic::St1h,
        Code::SveSt1qS => Mnemonic::St1q,
        Code::SveSt1wG32 => Mnemonic::St1w,
        Code::SveSt1wG64 => Mnemonic::St1w,
        Code::SveSt1wImm => Mnemonic::St1w,
        Code::SveSt1wSs => Mnemonic::St1w,
        Code::SveSt1wVi => Mnemonic::St1w,
        Code::SveSt1wqImm => Mnemonic::St1w,
        Code::SveSt1wqSs => Mnemonic::St1w,
        Code::SveSt2bImm => Mnemonic::St2b,
        Code::SveSt2bSs => Mnemonic::St2b,
        Code::SveSt2dImm => Mnemonic::St2d,
        Code::SveSt2dSs => Mnemonic::St2d,
        Code::SveSt2hImm => Mnemonic::St2h,
        Code::SveSt2hSs => Mnemonic::St2h,
        Code::SveSt2qImm => Mnemonic::St2q,
        Code::SveSt2qSs => Mnemonic::St2q,
        Code::SveSt2wImm => Mnemonic::St2w,
        Code::SveSt2wSs => Mnemonic::St2w,
        Code::SveSt3bImm => Mnemonic::St3b,
        Code::SveSt3bSs => Mnemonic::St3b,
        Code::SveSt3dImm => Mnemonic::St3d,
        Code::SveSt3dSs => Mnemonic::St3d,
        Code::SveSt3hImm => Mnemonic::St3h,
        Code::SveSt3hSs => Mnemonic::St3h,
        Code::SveSt3qImm => Mnemonic::St3q,
        Code::SveSt3qSs => Mnemonic::St3q,
        Code::SveSt3wImm => Mnemonic::St3w,
        Code::SveSt3wSs => Mnemonic::St3w,
        Code::SveSt4bImm => Mnemonic::St4b,
        Code::SveSt4bSs => Mnemonic::St4b,
        Code::SveSt4dImm => Mnemonic::St4d,
        Code::SveSt4dSs => Mnemonic::St4d,
        Code::SveSt4hImm => Mnemonic::St4h,
        Code::SveSt4hSs => Mnemonic::St4h,
        Code::SveSt4qImm => Mnemonic::St4q,
        Code::SveSt4qSs => Mnemonic::St4q,
        Code::SveSt4wImm => Mnemonic::St4w,
        Code::SveSt4wSs => Mnemonic::St4w,
        Code::SveStnt1bImm => Mnemonic::Stnt1b,
        Code::SveStnt1bSs => Mnemonic::Stnt1b,
        Code::SveStnt1bVs => Mnemonic::Stnt1b,
        Code::SveStnt1dImm => Mnemonic::Stnt1d,
        Code::SveStnt1dSs => Mnemonic::Stnt1d,
        Code::SveStnt1dVs => Mnemonic::Stnt1d,
        Code::SveStnt1hImm => Mnemonic::Stnt1h,
        Code::SveStnt1hSs => Mnemonic::Stnt1h,
        Code::SveStnt1hVs => Mnemonic::Stnt1h,
        Code::SveStnt1wImm => Mnemonic::Stnt1w,
        Code::SveStnt1wSs => Mnemonic::Stnt1w,
        _ => code_mnemonic_6(x),
    }
}

/// Continuation of [`code_mnemonic`].
pub open spec fn code_mnemonic_6(x: Code) -> Mnemonic {
    match x {
        Code::SveStnt1wVs => Mnemonic::Stnt1w,
        Code::SveStrP => Mnemonic::Str,
        Code::SveStrZ => Mnemonic::Str,
        Code::SveSubZi => Mnemonic::Sub,
        Code::SveSubZpzz => Mnemonic::Sub,
        Code::SveSubZzz => Mnemonic::Sub,
        Code::SveSubptPred => Mnemonic::Subpt,
        Code::SveSubptUnpred => Mnemonic::Subpt,
        Code::SveSubrZi => Mnemonic::Subr,
        Code::SveSubrZpzz => Mnemonic::Subr,
        Code::SveSxtbZpz => Mnemonic::Sxtb,
        Code::SveSxthZpz => Mnemonic::Sxth,
        Code::SveSxtwZpz => Mnemonic::Sxtw,
        Code::SveTbl => Mnemonic::Tbl,
        Code::SveTbl2 => Mnemonic::Tbl2,
        Code::SveTblq => Mnemonic::Tblq,
        Code::SveTbx => Mnemonic::Tbx,
        Code::SveTbxq => Mnemonic::Tbxq,
        Code::SveUabal => Mnemonic::Uabal,
        Code::SveUabdZpzz => Mnemonic::Uabd,
        Code::SveUaddv => Mnemonic::Uaddv,
        Code::SveUclamp => Mnemonic::Uclamp,
        Code::SveUcvtf => Mnemonic::Ucvtf,
        Code::SveUcvtfZ => Mnemonic::Ucvtf,
        Code::SveUdivZpzz => Mnemonic::Udiv,
        Code::SveUdivrZpzz => Mnemonic::Udivr,
        Code::SveUdot => Mnemonic::Udot,
        Code::SveUdotH => Mnemonic::Udot,
        Code::SveUdotHIdx => Mnemonic::Udot,
        Code::SveUdotIdx => Mnemonic::Udot,
        Code::SveUmaxZi => Mnemonic::Umax,
        Code::SveUmaxZpzz => Mnemonic::Umax,
        Code::SveUmaxqv => Mnemonic::Umaxqv,
        Code::SveUmaxv => Mnemonic::Umaxv,
        Code::SveUminZi => Mnemonic::Umin,
        Code::SveUminZpzz => Mnemonic::Umin,
        Code::SveUminqv => Mnemonic::Uminqv,
        Code::SveUminv => Mnemonic::Uminv,
        Code::SveUmulhZpzz => Mnemonic::Umulh,
        Code::SveUmulhZzz => Mnemonic::Umulh,
        Code::SveUnpk => Mnemonic::Unpk,
        Code::SveUqaddZi => Mnemonic::Uqadd,
        Code::SveUqaddZzz => Mnemonic::Uqadd,
        Code::SveUqsubZi => Mnemonic::Uqsub,
        Code::SveUqsubZzz => Mnemonic::Uqsub,
        Code::SveUxtbZpz => Mnemonic::Uxtb,
        Code::SveUxthZpz => Mnemonic::Uxth,
        Code::SveUxtwZpz => Mnemonic::Uxtw,
        Code::SveWhile => Mnemonic::While,
        Code::SveWhilePair => Mnemonic::While,
        Code::SveWhilePn => Mnemonic::While,
        Code::SveWhileRw => Mnemonic::While,
        Code::SveWrffr => Mnemonic::Wrffr,
        Code::SveXar => Mnemonic::Xar,
        Code::SveZipUzpTrnPpp => Mnemonic::Zip,
        Code::SveZipUzpTrnQ => Mnemonic::Zip,
        Code::SveZipUzpTrnZzz => Mnemonic::Zip,
        Code::SveZipqUzpq => Mnemonic::Zipq,
        _ => Mnemonic::Invalid,
    }
}

/// Executable form of [`code_mnemonic`].
pub fn default_mnemonic(x: Code) -> (r: Mnemonic)
    ensures
        r == code_mnemonic(x),
{
    proof {
        reveal(code_mnemonic);
    }
    match x {
        Code::Invalid => Mnemonic::Invalid,
        Code::RevdZPZ => Mnemonic::Revd,
        Code::SmeAddDDV2Gg => Mnemonic::Add,
        Code::SmeAddDDV2Go => Mnemonic::Add,
        Code::SmeAddDDV2Gs => Mnemonic::Add,
        Code::SmeAddDDV4Gg => Mnemonic::Add,
        Code::SmeAddDDV4Go => Mnemonic::Add,
        Code::SmeAddDDV4Gs => Mnemonic::Add,
        Code::SmeAddMVS2 => Mnemonic::Add,
        Code::SmeAddMVS4 => Mnemonic::Add,
        Code::SmeAddSSV2Gg => Mnemonic::Add,
        Code::SmeAddSSV2Go => Mnemonic::Add,
        Code::SmeAddSSV2Gs => Mnemonic::Add,
        Code::SmeAddSSV4Gg => Mnemonic::Add,
        Code::SmeAddSSV4Go => Mnemonic::Add,
        Code::SmeAddSSV4Gs => Mnemonic::Add,
        Code::SmeAddha => Mnemonic::Addha,
        Code::SmeAddva => Mnemonic::Addva,
        Code::SmeBf1cvtWiden => Mnemonic::Bf1cvt,
        Code::SmeBf1cvtlWiden => Mnemonic::Bf1cvtl,
        Code::SmeBf2cvtWiden => Mnemonic::Bf2cvt,
        Code::SmeBf2cvtlWiden => Mnemonic::Bf2cvtl,
        Code::SmeBfaddV2Go => Mnemonic::Bfadd,
        Code::SmeBfaddV4Go => Mnemonic::Bfadd,
        Code::SmeBfclampMV2 => Mnemonic::Bfclamp,
        Code::SmeBfclampMV4 => Mnemonic::Bfclamp,
        Code::SmeBfcvtNarrow => Mnemonic::Bfcvt,
        Code::SmeBfcvtNarrowFp8 => Mnemonic::Bfcvt,
        Code::SmeBfcvtnNarrowFp => Mnemonic::Bfcvtn,
        Code::SmeBfdotSHV2Gg => Mnemonic::Bfdot,
        Code::SmeBfdotSHV2Gi => Mnemonic::Bfdot,
        Code::SmeBfdotSHV2Gs => Mnemonic::Bfdot,
        Code::SmeBfdotSHV4Gg => Mnemonic::Bfdot,
        Code::SmeBfdotSHV4Gi => Mnemonic::Bfdot,
        Code::SmeBfdotSHV4Gs => Mnemonic::Bfdot,
        Code::SmeBfmaxMV2 => Mnemonic::Bfmax,
        Code::SmeBfmaxMV4 => Mnemonic::Bfmax,
        Code::SmeBfmaxMVS2 => Mnemonic::Bfmax,
        Code::SmeBfmaxMVS4 => Mnemonic::Bfmax,
        Code::SmeBfmaxnmMV2 => Mnemonic::Bfmaxnm,
        Code::SmeBfmaxnmMV4 => Mnemonic::Bfmaxnm,
        Code::SmeBfmaxnmMVS2 => Mnemonic::Bfmaxnm,
        Code::SmeBfmaxnmMVS4 => Mnemonic::Bfmaxnm,
        Code::SmeBfminMV2 => Mnemonic::Bfmin,
        Code::SmeBfminMV4 => Mnemonic::Bfmin,
        Code::SmeBfminMVS2 => Mnemonic::Bfmin,
        Code::SmeBfminMVS4 => Mnemonic::Bfmin,
        Code::SmeBfminnmMV2 => Mnemonic::Bfminnm,
        Code::SmeBfminnmMV4 => Mnemonic::Bfminnm,
        Code::SmeBfminnmMVS2 => Mnemonic::Bfminnm,
        Code::SmeBfminnmMVS4 => Mnemonic::Bfminnm,
        Code::SmeBfmlaHHOV2Gg => Mnemonic::Bfmla,
        Code::SmeBfmlaHHOV2Gi => Mnemonic::Bfmla,
        Code::SmeBfmlaHHOV2Gs => Mnemonic::Bfmla,
        Code::SmeBfmlaHHOV4Gg => Mnemonic::Bfmla,
        Code::SmeBfmlaHHOV4Gi => Mnemonic::Bfmla,
        Code::SmeBfmlaHHOV4Gs => Mnemonic::Bfmla,
        Code::SmeBfmlalSHTSi => Mnemonic::Bfmlal,
        Code::SmeBfmlalSHTSs => Mnemonic::Bfmlal,
        Code::SmeBfmlalSHTV2Gg => Mnemonic::Bfmlal,
        Code::SmeBfmlalSHTV2Gi => Mnemonic::Bfmlal,
        Code::SmeBfmlalSHTV2Gs => Mnemonic::Bfmlal,
        Code::SmeBfmlalSHTV4Gg => Mnemonic::Bfmlal,
        Code::SmeBfmlalSHTV4Gi => Mnemonic::Bfmlal,
        Code::SmeBfmlalSHTV4Gs => Mnemonic::Bfmlal,
        Code::SmeBfmlsHHOV2Gg => Mnemonic::Bfmls,
        Code::SmeBfmlsHHOV2Gi => Mnemonic::Bfmls,
        Code::SmeBfmlsHHOV2Gs => Mnemonic::Bfmls,
        Code::SmeBfmlsHHOV4Gg => Mnemonic::Bfmls,
        Code::SmeBfmlsHHOV4Gi => Mnemonic::Bfmls,
        Code::SmeBfmlsHHOV4Gs => Mnemonic::Bfmls,
        Code::SmeBfmlslSHTSi => Mnemonic::Bfmlsl,
        Code::SmeBfmlslSHTSs => Mnemonic::Bfmlsl,
        Code::SmeBfmlslSHTV2Gg => Mnemonic::Bfmlsl,
        Code::SmeBfmlslSHTV2Gi => Mnemonic::Bfmlsl,
        Code::SmeBfmlslSHTV2Gs => Mnemonic::Bfmlsl,
        Code::SmeBfmlslSHTV4Gg => Mnemonic::Bfmlsl,
        Code::SmeBfmlslSHTV4Gi => Mnemonic::Bfmlsl,
        Code::SmeBfmlslSHTV4Gs => Mnemonic::Bfmlsl,
        Code::SmeBfmop4aHh => Mnemonic::Bfmop4a,
        Code::SmeBfmop4aS => Mnemonic::Bfmop4a,
        Code::SmeBfmop4sHh => Mnemonic::Bfmop4s,
        Code::SmeBfmop4sS => Mnemonic::Bfmop4s,
        Code::SmeBfmopa => Mnemonic::Bfmopa,
        Code::SmeBfmopaH => Mnemonic::Bfmopa,
        Code::SmeBfmops => Mnemonic::Bfmops,
        Code::SmeBfmopsH => Mnemonic::Bfmops,
        Code::SmeBfmulMV2 => Mnemonic::Bfmul,
        Code::SmeBfmulMV4 => Mnemonic::Bfmul,
        Code::SmeBfmulMVS2 => Mnemonic::Bfmul,
        Code::SmeBfmulMVS4 => Mnemonic::Bfmul,
        Code::SmeBfscaleMV2 => Mnemonic::Bfscale,
        Code::SmeBfscaleMV4 => Mnemonic::Bfscale,
        Code::SmeBfscaleMVS2 => Mnemonic::Bfscale,
        Code::SmeBfscaleMVS4 => Mnemonic::Bfscale,
        Code::SmeBfsubV2Go => Mnemonic::Bfsub,
        Code::SmeBfsubV4Go => Mnemonic::Bfsub,
        Code::SmeBftmopaHH => Mnemonic::Bftmopa,
        Code::SmeBftmopaSH => Mnemonic::Bftmopa,
        Code::SmeBfvdotSHV2Gi => Mnemonic::Bfvdot,
        Code::SmeBmopaS => Mnemonic::Bmopa,
        Code::SmeBmopsS => Mnemonic::Bmops,
        Code::SmeF1cvtWiden => Mnemonic::F1cvt,
        Code::SmeF1cvtlWiden => Mnemonic::F1cvtl,
        Code::SmeF2cvtWiden => Mnemonic::F2cvt,
        Code::SmeF2cvtlWiden => Mnemonic::F2cvtl,
        Code::SmeFaddDDV2Go => Mnemonic::Fadd,
        Code::SmeFaddDDV4Go => Mnemonic::Fadd,
        Code::SmeFaddHHV2Go => Mnemonic::Fadd,
        Code::SmeFaddHHV4Go => Mnemonic::Fadd,
        Code::SmeFaddSSV2Go => Mnemonic::Fadd,
        Code::SmeFaddSSV4Go => Mnemonic::Fadd,
        Code::SmeFamaxMV2 => Mnemonic::Famax,
        Code::SmeFamaxMV4 => Mnemonic::Famax,
        Code::SmeFaminMV2 => Mnemonic::Famin,
        Code::SmeFaminMV4 => Mnemonic::Famin,
        Code::SmeFclampMV2 => Mnemonic::Fclamp,
        Code::SmeFclampMV4 => Mnemonic::Fclamp,
        Code::SmeFcvtNarrow => Mnemonic::Fcvt,
        Code::SmeFcvtNarrowFp8 => Mnemonic::Fcvt,
        Code::SmeFcvtWiden => Mnemonic::Fcvt,
        Code::SmeFcvtlWiden => Mnemonic::Fcvtl,
        Code::SmeFcvtnNarrowFp => Mnemonic::Fcvtn,
        Code::SmeFcvtnNarrowFp8 => Mnemonic::Fcvtn,
        Code::SmeFcvtzs => Mnemonic::Fcvtzs,
        Code::SmeFcvtzu => Mnemonic::Fcvtzu,
        Code::SmeFdotHBV2Gg => Mnemonic::Fdot,
        Code::SmeFdotHBV2Gi => Mnemonic::Fdot,
        Code::SmeFdotHBV2Gs => Mnemonic::Fdot,
        Code::SmeFdotHBV4Gg => Mnemonic::Fdot,
        Code::SmeFdotHBV4Gi => Mnemonic::Fdot,
        Code::SmeFdotHBV4Gs => Mnemonic::Fdot,
        Code::SmeFdotSBV2Gg => Mnemonic::Fdot,
        Code::SmeFdotSBV2Gi => Mnemonic::Fdot,
        Code::SmeFdotSBV2Gs => Mnemonic::Fdot,
        Code::SmeFdotSBV4Gg => Mnemonic::Fdot,
        Code::SmeFdotSBV4Gi => Mnemonic::Fdot,
        Code::SmeFdotSBV4Gs => Mnemonic::Fdot,
        Code::SmeFdotSHV2Gg => Mnemonic::Fdot,
        Code::SmeFdotSHV2Gi => Mnemonic::Fdot,
        Code::SmeFdotSHV2Gs => Mnemonic::Fdot,
        Code::SmeFdotSHV4Gg => Mnemonic::Fdot,
        Code::SmeFdotSHV4Gi => Mnemonic::Fdot,
        Code::SmeFdotSHV4Gs => Mnemonic::Fdot,
        Code::SmeFmaxMV2 => Mnemonic::Fmax,
        Code::SmeFmaxMV4 => Mnemonic::Fmax,
        Code::SmeFmaxMVS2 => Mnemonic::Fmax,
        Code::SmeFmaxMVS4 => Mnemonic::Fmax,
        Code::SmeFmaxnmMV2 => Mnemonic::Fmaxnm,
        Code::SmeFmaxnmMV4 => Mnemonic::Fmaxnm,
        Code::SmeFmaxnmMVS2 => Mnemonic::Fmaxnm,
        Code::SmeFmaxnmMVS4 => Mnemonic::Fmaxnm,
        Code::SmeFminMV2 => Mnemonic::Fmin,
        Code::SmeFminMV4 => Mnemonic::Fmin,
        Code::SmeFminMVS2 => Mnemonic::Fmin,
        Code::SmeFminMVS4 => Mnemonic::Fmin,
        Code::SmeFminnmMV2 => Mnemonic::Fminnm,
        Code::SmeFminnmMV4 => Mnemonic::Fminnm,
        Code::SmeFminnmMVS2 => Mnemonic::Fminnm,
        Code::SmeFminnmMVS4 => Mnemonic::Fminnm,
        Code::SmeFmlaDDOV2Gg => Mnemonic::Fmla,
        Code::SmeFmlaDDOV2Gi => Mnemonic::Fmla,
        Code::SmeFmlaDDOV2Gs => Mnemonic::Fmla,
        Code::SmeFmlaDDOV4Gg => Mnemonic::Fmla,
        Code::SmeFmlaDDOV4Gi => Mnemonic::Fmla,
        Code::SmeFmlaDDOV4Gs => Mnemonic::Fmla,
        Code::SmeFmlaHHOV2Gg => Mnemonic::Fmla,
        Code::SmeFmlaHHOV2Gi => Mnemonic::Fmla,
        Code::SmeFmlaHHOV2Gs => Mnemonic::Fmla,
        Code::SmeFmlaHHOV4Gg => Mnemonic::Fmla,
        Code::SmeFmlaHHOV4Gi => Mnemonic::Fmla,
        Code::SmeFmlaHHOV4Gs => Mnemonic::Fmla,
        Code::SmeFmlaSSOV2Gg => Mnemonic::Fmla,
        Code::SmeFmlaSSOV2Gi => Mnemonic::Fmla,
        Code::SmeFmlaSSOV2Gs => Mnemonic::Fmla,
        Code::SmeFmlaSSOV4Gg => Mnemonic::Fmla,
        Code::SmeFmlaSSOV4Gi => Mnemonic::Fmla,
        Code::SmeFmlaSSOV4Gs => Mnemonic::Fmla,
        Code::SmeFmlalHBTSi => Mnemonic::Fmlal,
        Code::SmeFmlalHBTSs => Mnemonic::Fmlal,
        Code::SmeFmlalHBTV2Gg => Mnemonic::Fmlal,
        Code::SmeFmlalHBTV2Gi => Mnemonic::Fmlal,
        Code::SmeFmlalHBTV2Gs => Mnemonic::Fmlal,
        Code::SmeFmlalHBTV4Gg => Mnemonic::Fmlal,
        Code::SmeFmlalHBTV4Gi => Mnemonic::Fmlal,
        Code::SmeFmlalHBTV4Gs => Mnemonic::Fmlal,
        Code::SmeFmlalSHTSi => Mnemonic::Fmlal,
        Code::SmeFmlalSHTSs => Mnemonic::Fmlal,
        Code::SmeFmlalSHTV2Gg => Mnemonic::Fmlal,
        Code::SmeFmlalSHTV2Gi => Mnemonic::Fmlal,
        Code::SmeFmlalSHTV2Gs => Mnemonic::Fmlal,
        Code::SmeFmlalSHTV4Gg => Mnemonic::Fmlal,
        Code::SmeFmlalSHTV4Gi => Mnemonic::Fmlal,
        Code::SmeFmlalSHTV4Gs => Mnemonic::Fmlal,
        Code::SmeFmlallSBQSi => Mnemonic::Fmlall,
        Code::SmeFmlallSBQSs => Mnemonic::Fmlall,
        Code::SmeFmlallSBQV2Gg => Mnemonic::Fmlall,
        Code::SmeFmlallSBQV2Gi => Mnemonic::Fmlall,
        Code::SmeFmlallSBQV2Gs => Mnemonic::Fmlall,
        Code::SmeFmlallSBQV4Gg => Mnemonic::Fmlall,
        Code::SmeFmlallSBQV4Gi => Mnemonic::Fmlall,
        _ => default_mnemonic_1(x),
    }
}

fn default_mnemonic_1(x: Code) -> (r: Mnemonic)
    ensures
        r == code_mnemonic_1(x),
{
    match x {
        Code::SmeFmlallSBQV4Gs => Mnemonic::Fmlall,
        Code::SmeFmlsDDOV2Gg => Mnemonic::Fmls,
        Code::SmeFmlsDDOV2Gi => Mnemonic::Fmls,
        Code::SmeFmlsDDOV2Gs => Mnemonic::Fmls,
        Code::SmeFmlsDDOV4Gg => Mnemonic::Fmls,
        Code::SmeFmlsDDOV4Gi => Mnemonic::Fmls,
        Code::SmeFmlsDDOV4Gs => Mnemonic::Fmls,
        Code::SmeFmlsHHOV2Gg => Mnemonic::Fmls,
        Code::SmeFmlsHHOV2Gi => Mnemonic::Fmls,
        Code::SmeFmlsHHOV2Gs => Mnemonic::Fmls,
        Code::SmeFmlsHHOV4Gg => Mnemonic::Fmls,
        Code::SmeFmlsHHOV4Gi => Mnemonic::Fmls,
        Code::SmeFmlsHHOV4Gs => Mnemonic::Fmls,
        Code::SmeFmlsSSOV2Gg => Mnemonic::Fmls,
        Code::SmeFmlsSSOV2Gi => Mnemonic::Fmls,
        Code::SmeFmlsSSOV2Gs => Mnemonic::Fmls,
        Code::SmeFmlsSSOV4Gg => Mnemonic::Fmls,
        Code::SmeFmlsSSOV4Gi => Mnemonic::Fmls,
        Code::SmeFmlsSSOV4Gs => Mnemonic::Fmls,
        Code::SmeFmlslSHTSi => Mnemonic::Fmlsl,
        Code::SmeFmlslSHTSs => Mnemonic::Fmlsl,
        Code::SmeFmlslSHTV2Gg => Mnemonic::Fmlsl,
        Code::SmeFmlslSHTV2Gi => Mnemonic::Fmlsl,
        Code::SmeFmlslSHTV2Gs => Mnemonic::Fmlsl,
        Code::SmeFmlslSHTV4Gg => Mnemonic::Fmlsl,
        Code::SmeFmlslSHTV4Gi => Mnemonic::Fmlsl,
        Code::SmeFmlslSHTV4Gs => Mnemonic::Fmlsl,
        Code::SmeFmop4aB => Mnemonic::Fmop4a,
        Code::SmeFmop4aBh => Mnemonic::Fmop4a,
        Code::SmeFmop4aD => Mnemonic::Fmop4a,
        Code::SmeFmop4aHh => Mnemonic::Fmop4a,
        Code::SmeFmop4aHs => Mnemonic::Fmop4a,
        Code::SmeFmop4aS => Mnemonic::Fmop4a,
        Code::SmeFmop4sD => Mnemonic::Fmop4s,
        Code::SmeFmop4sHh => Mnemonic::Fmop4s,
        Code::SmeFmop4sHs => Mnemonic::Fmop4s,
        Code::SmeFmop4sS => Mnemonic::Fmop4s,
        Code::SmeFmopaB => Mnemonic::Fmopa,
        Code::SmeFmopaBh => Mnemonic::Fmopa,
        Code::SmeFmopaD => Mnemonic::Fmopa,
        Code::SmeFmopaH => Mnemonic::Fmopa,
        Code::SmeFmopaHh => Mnemonic::Fmopa,
        Code::SmeFmopaS => Mnemonic::Fmopa,
        Code::SmeFmopsD => Mnemonic::Fmops,
        Code::SmeFmopsH => Mnemonic::Fmops,
        Code::SmeFmopsHh => Mnemonic::Fmops,
        Code::SmeFmopsS => Mnemonic::Fmops,
        Code::SmeFmulMV2 => Mnemonic::Fmul,
        Code::SmeFmulMV4 => Mnemonic::Fmul,
        Code::SmeFmulMVS2 => Mnemonic::Fmul,
        Code::SmeFmulMVS4 => Mnemonic::Fmul,
        Code::SmeFrinta => Mnemonic::Frinta,
        Code::SmeFrintm => Mnemonic::Frintm,
        Code::SmeFrintn => Mnemonic::Frintn,
        Code::SmeFrintp => Mnemonic::Frintp,
        Code::SmeFscaleMVMV2 => Mnemonic::Fscale,
        Code::SmeFscaleMVMV4 => Mnemonic::Fscale,
        Code::SmeFscaleMVS2 => Mnemonic::Fscale,
        Code::SmeFscaleMVS4 => Mnemonic::Fscale,
        Code::SmeFsubDDV2Go => Mnemonic::Fsub,
        Code::SmeFsubDDV4Go => Mnemonic::Fsub,
        Code::SmeFsubHHV2Go => Mnemonic::Fsub,
        Code::SmeFsubHHV4Go => Mnemonic::Fsub,
        Code::SmeFsubSSV2Go => Mnemonic::Fsub,
        Code::SmeFsubSSV4Go => Mnemonic::Fsub,
        Code::SmeFtmopaHB => Mnemonic::Ftmopa,
        Code::SmeFtmopaHH => Mnemonic::Ftmopa,
        Code::SmeFtmopaSB => Mnemonic::Ftmopa,
        Code::SmeFtmopaSH => Mnemonic::Ftmopa,
        Code::SmeFtmopaSS => Mnemonic::Ftmopa,
        Code::SmeFvdotHBV2Gi => Mnemonic::Fvdot,
        Code::SmeFvdotSHV2Gi => Mnemonic::Fvdot,
        Code::SmeFvdotbSBV4GiB => Mnemonic::Fvdotb,
        Code::SmeFvdottSBV4GiB => Mnemonic::Fvdott,
        Code::SmeLd1bMV => Mnemonic::Ld1b,
        Code::SmeLd1bZa => Mnemonic::Ld1b,
        Code::SmeLd1dMV => Mnemonic::Ld1d,
        Code::SmeLd1dZa => Mnemonic::Ld1d,
        Code::SmeLd1hMV => Mnemonic::Ld1h,
        Code::SmeLd1hZa => Mnemonic::Ld1h,
        Code::SmeLd1qZa => Mnemonic::Ld1q,
        Code::SmeLd1wMV => Mnemonic::Ld1w,
        Code::SmeLd1wZa => Mnemonic::Ld1w,
        Code::SmeLdnt1bMV => Mnemonic::Ldnt1b,
        Code::SmeLdnt1dMV => Mnemonic::Ldnt1d,
        Code::SmeLdnt1hMV => Mnemonic::Ldnt1h,
        Code::SmeLdnt1wMV => Mnemonic::Ldnt1w,
        Code::SmeLdrZa => Mnemonic::Ldr,
        Code::SmeLuti2Zt => Mnemonic::Luti2,
        Code::SmeLuti4Zt => Mnemonic::Luti4,
        Code::SmeLuti6 => Mnemonic::Luti6,
        Code::SmeLuti6Consec => Mnemonic::Luti6,
        Code::SmeLuti6Single => Mnemonic::Luti6,
        Code::SmeMovaArrayToVec => Mnemonic::Mova,
        Code::SmeMovaMultiTileToZ => Mnemonic::Mova,
        Code::SmeMovaMultiZToTile => Mnemonic::Mova,
        Code::SmeMovaTileToZ => Mnemonic::Mova,
        Code::SmeMovaVecToArray => Mnemonic::Mova,
        Code::SmeMovaZToTile => Mnemonic::Mova,
        Code::SmeMovazArrayToVec => Mnemonic::Movaz,
        Code::SmeMovazMultiTileToZ => Mnemonic::Movaz,
        Code::SmeMovazTileToZ => Mnemonic::Movaz,
        Code::SmeMovtXZt0 => Mnemonic::Movt,
        Code::SmeMovtZt0X => Mnemonic::Movt,
        Code::SmeMovtZt0Z => Mnemonic::Movt,
        Code::SmeSclampMV2 => Mnemonic::Sclamp,
        Code::SmeSclampMV4 => Mnemonic::Sclamp,
        Code::SmeScvtf => Mnemonic::Scvtf,
        Code::SmeSdotDHV2Gg => Mnemonic::Sdot,
        Code::SmeSdotDHV2Gi => Mnemonic::Sdot,
        Code::SmeSdotDHV2Gs => Mnemonic::Sdot,
        Code::SmeSdotDHV4Gg => Mnemonic::Sdot,
        Code::SmeSdotDHV4Gi => Mnemonic::Sdot,
        Code::SmeSdotDHV4Gs => Mnemonic::Sdot,
        Code::SmeSdotSBV2Gg => Mnemonic::Sdot,
        Code::SmeSdotSBV2Gi => Mnemonic::Sdot,
        Code::SmeSdotSBV2Gs => Mnemonic::Sdot,
        Code::SmeSdotSBV4Gg => Mnemonic::Sdot,
        Code::SmeSdotSBV4Gi => Mnemonic::Sdot,
        Code::SmeSdotSBV4Gs => Mnemonic::Sdot,
        Code::SmeSdotSHV2Gg => Mnemonic::Sdot,
        Code::SmeSdotSHV2Gi => Mnemonic::Sdot,
        Code::SmeSdotSHV2Gs => Mnemonic::Sdot,
        Code::SmeSdotSHV4Gg => Mnemonic::Sdot,
        Code::SmeSdotSHV4Gi => Mnemonic::Sdot,
        Code::SmeSdotSHV4Gs => Mnemonic::Sdot,
        Code::SmeSelMV2 => Mnemonic::Sel,
        Code::SmeSelMV4 => Mnemonic::Sel,
        Code::SmeSmaxMV2 => Mnemonic::Smax,
        Code::SmeSmaxMV4 => Mnemonic::Smax,
        Code::SmeSmaxMVS2 => Mnemonic::Smax,
        Code::SmeSmaxMVS4 => Mnemonic::Smax,
        Code::SmeSminMV2 => Mnemonic::Smin,
        Code::SmeSminMV4 => Mnemonic::Smin,
        Code::SmeSminMVS2 => Mnemonic::Smin,
        Code::SmeSminMVS4 => Mnemonic::Smin,
        Code::SmeSmlalSHTSi => Mnemonic::Smlal,
        Code::SmeSmlalSHTSs => Mnemonic::Smlal,
        Code::SmeSmlalSHTV2Gg => Mnemonic::Smlal,
        Code::SmeSmlalSHTV2Gi => Mnemonic::Smlal,
        Code::SmeSmlalSHTV2Gs => Mnemonic::Smlal,
        Code::SmeSmlalSHTV4Gg => Mnemonic::Smlal,
        Code::SmeSmlalSHTV4Gi => Mnemonic::Smlal,
        Code::SmeSmlalSHTV4Gs => Mnemonic::Smlal,
        Code::SmeSmlallDHQSi => Mnemonic::Smlall,
        Code::SmeSmlallDHQSs => Mnemonic::Smlall,
        Code::SmeSmlallDHQV2Gg => Mnemonic::Smlall,
        Code::SmeSmlallDHQV2Gi => Mnemonic::Smlall,
        Code::SmeSmlallDHQV2Gs => Mnemonic::Smlall,
        Code::SmeSmlallDHQV4Gg => Mnemonic::Smlall,
        Code::SmeSmlallDHQV4Gi => Mnemonic::Smlall,
        Code::SmeSmlallDHQV4Gs => Mnemonic::Smlall,
        Code::SmeSmlallSBQSi => Mnemonic::Smlall,
        Code::SmeSmlallSBQSs => Mnemonic::Smlall,
        Code::SmeSmlallSBQV2Gg => Mnemonic::Smlall,
        Code::SmeSmlallSBQV2Gi => Mnemonic::Smlall,
        Code::SmeSmlallSBQV2Gs => Mnemonic::Smlall,
        Code::SmeSmlallSBQV4Gg => Mnemonic::Smlall,
        Code::SmeSmlallSBQV4Gi => Mnemonic::Smlall,
        Code::SmeSmlallSBQV4Gs => Mnemonic::Smlall,
        Code::SmeSmlslSHTSi => Mnemonic::Smlsl,
        Code::SmeSmlslSHTSs => Mnemonic::Smlsl,
        Code::SmeSmlslSHTV2Gg => Mnemonic::Smlsl,
        Code::SmeSmlslSHTV2Gi => Mnemonic::Smlsl,
        Code::SmeSmlslSHTV2Gs => Mnemonic::Smlsl,
        Code::SmeSmlslSHTV4Gg => Mnemonic::Smlsl,
        Code::SmeSmlslSHTV4Gi => Mnemonic::Smlsl,
        Code::SmeSmlslSHTV4Gs => Mnemonic::Smlsl,
        Code::SmeSmlsllDHQSi => Mnemonic::Smlsll,
        Code::SmeSmlsllDHQSs => Mnemonic::Smlsll,
        Code::SmeSmlsllDHQV2Gg => Mnemonic::Smlsll,
        Code::SmeSmlsllDHQV2Gi => Mnemonic::Smlsll,
        Code::SmeSmlsllDHQV2Gs => Mnemonic::Smlsll,
        Code::SmeSmlsllDHQV4Gg => Mnemonic::Smlsll,
        Code::SmeSmlsllDHQV4Gi => Mnemonic::Smlsll,
        Code::SmeSmlsllDHQV4Gs => Mnemonic::Smlsll,
        Code::SmeSmlsllSBQSi => Mnemonic::Smlsll,
        Code::SmeSmlsllSBQSs => Mnemonic::Smlsll,
        Code::SmeSmlsllSBQV2Gg => Mnemonic::Smlsll,
        Code::SmeSmlsllSBQV2Gi => Mnemonic::Smlsll,
        Code::SmeSmlsllSBQV2Gs => Mnemonic::Smlsll,
        Code::SmeSmlsllSBQV4Gg => Mnemonic::Smlsll,
        Code::SmeSmlsllSBQV4Gi => Mnemonic::Smlsll,
        Code::SmeSmlsllSBQV4Gs => Mnemonic::Smlsll,
        Code::SmeSmop4aD => Mnemonic::Smop4a,
        Code::SmeSmop4aHs => Mnemonic::Smop4a,
        Code::SmeSmop4aS => Mnemonic::Smop4a,
        Code::SmeSmop4sD => Mnemonic::Smop4s,
        Code::SmeSmop4sHs => Mnemonic::Smop4s,
        Code::SmeSmop4sS => Mnemonic::Smop4s,
        Code::SmeSmopaD => Mnemonic::Smopa,
        Code::SmeSmopaHs => Mnemonic::Smopa,
        Code::SmeSmopaS => Mnemonic::Smopa,
        Code::SmeSmopsD => Mnemonic::Smops,
        Code::SmeSmopsHs => Mnemonic::Smops,
        Code::SmeSmopsS => Mnemonic::Smops,
        Code::SmeSqcvt => Mnemonic::Sqcvt,
        Code::SmeSqcvtnNarrow => Mnemonic::Sqcvtn,
        Code::SmeSqcvtu => Mnemonic::Sqcvtu,
        Code::SmeSqcvtunNarrow => Mnemonic::Sqcvtun,
        _ => default_mnemonic_2(x),
    }
}

fn default_mnemonic_2(x: Code) -> (r: Mnemonic)
    ensures
        r == code_mnemonic_2(x),
{
    match x {
        Code::SmeSqdmulhMV2 => Mnemonic::Sqdmulh,
        Code::SmeSqdmulhMV4 => Mnemonic::Sqdmulh,
        Code::SmeSqdmulhMVS2 => Mnemonic::Sqdmulh,
        Code::SmeSqdmulhMVS4 => Mnemonic::Sqdmulh,
        Code::SmeSqrshr => Mnemonic::Sqrshr,
        Code::SmeSqrshrV2 => Mnemonic::Sqrshr,
        Code::SmeSqrshrn => Mnemonic::Sqrshrn,
        Code::SmeSqrshru => Mnemonic::Sqrshru,
        Code::SmeSqrshruV2 => Mnemonic::Sqrshru,
        Code::SmeSqrshrun => Mnemonic::Sqrshrun,
        Code::SmeSrshlMV2 => Mnemonic::Srshl,
        Code::SmeSrshlMV4 => Mnemonic::Srshl,
        Code::SmeSrshlMVS2 => Mnemonic::Srshl,
        Code::SmeSrshlMVS4 => Mnemonic::Srshl,
        Code::SmeSt1bMV => Mnemonic::St1b,
        Code::SmeSt1bZa => Mnemonic::St1b,
        Code::SmeSt1dMV => Mnemonic::St1d,
        Code::SmeSt1dZa => Mnemonic::St1d,
        Code::SmeSt1hMV => Mnemonic::St1h,
        Code::SmeSt1hZa => Mnemonic::St1h,
        Code::SmeSt1qZa => Mnemonic::St1q,
        Code::SmeSt1wMV => Mnemonic::St1w,
        Code::SmeSt1wZa => Mnemonic::St1w,
        Code::SmeStmopaSB => Mnemonic::Stmopa,
        Code::SmeStmopaSH => Mnemonic::Stmopa,
        Code::SmeStnt1bMV => Mnemonic::Stnt1b,
        Code::SmeStnt1dMV => Mnemonic::Stnt1d,
        Code::SmeStnt1hMV => Mnemonic::Stnt1h,
        Code::SmeStnt1wMV => Mnemonic::Stnt1w,
        Code::SmeStrZa => Mnemonic::Str,
        Code::SmeSubDDV2Gg => Mnemonic::Sub,
        Code::SmeSubDDV2Go => Mnemonic::Sub,
        Code::SmeSubDDV2Gs => Mnemonic::Sub,
        Code::SmeSubDDV4Gg => Mnemonic::Sub,
        Code::SmeSubDDV4Go => Mnemonic::Sub,
        Code::SmeSubDDV4Gs => Mnemonic::Sub,
        Code::SmeSubSSV2Gg => Mnemonic::Sub,
        Code::SmeSubSSV2Go => Mnemonic::Sub,
        Code::SmeSubSSV2Gs => Mnemonic::Sub,
        Code::SmeSubSSV4Gg => Mnemonic::Sub,
        Code::SmeSubSSV4Go => Mnemonic::Sub,
        Code::SmeSubSSV4Gs => Mnemonic::Sub,
        Code::SmeSudotSBV2Gi => Mnemonic::Sudot,
        Code::SmeSudotSBV2Gs => Mnemonic::Sudot,
        Code::SmeSudotSBV4Gi => Mnemonic::Sudot,
        Code::SmeSudotSBV4Gs => Mnemonic::Sudot,
        Code::SmeSumlallSBQSi => Mnemonic::Sumlall,
        Code::SmeSumlallSBQV2Gi => Mnemonic::Sumlall,
        Code::SmeSumlallSBQV2Gs => Mnemonic::Sumlall,
        Code::SmeSumlallSBQV4Gi => Mnemonic::Sumlall,
        Code::SmeSumlallSBQV4Gs => Mnemonic::Sumlall,
        Code::SmeSumop4aD => Mnemonic::Sumop4a,
        Code::SmeSumop4aS => Mnemonic::Sumop4a,
        Code::SmeSumop4sD => Mnemonic::Sumop4s,
        Code::SmeSumop4sS => Mnemonic::Sumop4s,
        Code::SmeSumopaD => Mnemonic::Sumopa,
        Code::SmeSumopaS => Mnemonic::Sumopa,
        Code::SmeSumopsD => Mnemonic::Sumops,
        Code::SmeSumopsS => Mnemonic::Sumops,
        Code::SmeSunpk => Mnemonic::Sunpk,
        Code::SmeSutmopaSB => Mnemonic::Sutmopa,
        Code::SmeSuvdotSBV4Gi => Mnemonic::Suvdot,
        Code::SmeSvdotDHV4Gi => Mnemonic::Svdot,
        Code::SmeSvdotSBV4Gi => Mnemonic::Svdot,
        Code::SmeSvdotSHV2Gi => Mnemonic::Svdot,
        Code::SmeUclampMV2 => Mnemonic::Uclamp,
        Code::SmeUclampMV4 => Mnemonic::Uclamp,
        Code::SmeUcvtf => Mnemonic::Ucvtf,
        Code::SmeUdotDHV2Gg => Mnemonic::Udot,
        Code::SmeUdotDHV2Gi => Mnemonic::Udot,
        Code::SmeUdotDHV2Gs => Mnemonic::Udot,
        Code::SmeUdotDHV4Gg => Mnemonic::Udot,
        Code::SmeUdotDHV4Gi => Mnemonic::Udot,
        Code::SmeUdotDHV4Gs => Mnemonic::Udot,
        Code::SmeUdotSBV2Gg => Mnemonic::Udot,
        Code::SmeUdotSBV2Gi => Mnemonic::Udot,
        Code::SmeUdotSBV2Gs => Mnemonic::Udot,
        Code::SmeUdotSBV4Gg => Mnemonic::Udot,
        Code::SmeUdotSBV4Gi => Mnemonic::Udot,
        Code::SmeUdotSBV4Gs => Mnemonic::Udot,
        Code::SmeUdotSHV2Gg => Mnemonic::Udot,
        Code::SmeUdotSHV2Gi => Mnemonic::Udot,
        Code::SmeUdotSHV2Gs => Mnemonic::Udot,
        Code::SmeUdotSHV4Gg => Mnemonic::Udot,
        Code::SmeUdotSHV4Gi => Mnemonic::Udot,
        Code::SmeUdotSHV4Gs => Mnemonic::Udot,
        Code::SmeUmaxMV2 => Mnemonic::Umax,
        Code::SmeUmaxMV4 => Mnemonic::Umax,
        Code::SmeUmaxMVS2 => Mnemonic::Umax,
        Code::SmeUmaxMVS4 => Mnemonic::Umax,
        Code::SmeUminMV2 => Mnemonic::Umin,
        Code::SmeUminMV4 => Mnemonic::Umin,
        Code::SmeUminMVS2 => Mnemonic::Umin,
        Code::SmeUminMVS4 => Mnemonic::Umin,
        Code::SmeUmlalSHTSi => Mnemonic::Umlal,
        Code::SmeUmlalSHTSs => Mnemonic::Umlal,
        Code::SmeUmlalSHTV2Gg => Mnemonic::Umlal,
        Code::SmeUmlalSHTV2Gi => Mnemonic::Umlal,
        Code::SmeUmlalSHTV2Gs => Mnemonic::Umlal,
        Code::SmeUmlalSHTV4Gg => Mnemonic::Umlal,
        Code::SmeUmlalSHTV4Gi => Mnemonic::Umlal,
        Code::SmeUmlalSHTV4Gs => Mnemonic::Umlal,
        Code::SmeUmlallDHQSi => Mnemonic::Umlall,
        Code::SmeUmlallDHQSs => Mnemonic::Umlall,
        Code::SmeUmlallDHQV2Gg => Mnemonic::Umlall,
        Code::SmeUmlallDHQV2Gi => Mnemonic::Umlall,
        Code::SmeUmlallDHQV2Gs => Mnemonic::Umlall,
        Code::SmeUmlallDHQV4Gg => Mnemonic::Umlall,
        Code::SmeUmlallDHQV4Gi => Mnemonic::Umlall,
        Code::SmeUmlallDHQV4Gs => Mnemonic::Umlall,
        Code::SmeUmlallSBQSi => Mnemonic::Umlall,
        Code::SmeUmlallSBQSs => Mnemonic::Umlall,
        Code::SmeUmlallSBQV2Gg => Mnemonic::Umlall,
        Code::SmeUmlallSBQV2Gi => Mnemonic::Umlall,
        Code::SmeUmlallSBQV2Gs => Mnemonic::Umlall,
        Code::SmeUmlallSBQV4Gg => Mnemonic::Umlall,
        Code::SmeUmlallSBQV4Gi => Mnemonic::Umlall,
        Code::SmeUmlallSBQV4Gs => Mnemonic::Umlall,
        Code::SmeUmlslSHTSi => Mnemonic::Umlsl,
        Code::SmeUmlslSHTSs => Mnemonic::Umlsl,
        Code::SmeUmlslSHTV2Gg => Mnemonic::Umlsl,
        Code::SmeUmlslSHTV2Gi => Mnemonic::Umlsl,
        Code::SmeUmlslSHTV2Gs => Mnemonic::Umlsl,
        Code::SmeUmlslSHTV4Gg => Mnemonic::Umlsl,
        Code::SmeUmlslSHTV4Gi => Mnemonic::Umlsl,
        Code::SmeUmlslSHTV4Gs => Mnemonic::Umlsl,
        Code::SmeUmlsllDHQSi => Mnemonic::Umlsll,
        Code::SmeUmlsllDHQSs => Mnemonic::Umlsll,
        Code::SmeUmlsllDHQV2Gg => Mnemonic::Umlsll,
        Code::SmeUmlsllDHQV2Gi => Mnemonic::Umlsll,
        Code::SmeUmlsllDHQV2Gs => Mnemonic::Umlsll,
        Code::SmeUmlsllDHQV4Gg => Mnemonic::Umlsll,
        Code::SmeUmlsllDHQV4Gi => Mnemonic::Umlsll,
        Code::SmeUmlsllDHQV4Gs => Mnemonic::Umlsll,
        Code::SmeUmlsllSBQSi => Mnemonic::Umlsll,
        Code::SmeUmlsllSBQSs => Mnemonic::Umlsll,
        Code::SmeUmlsllSBQV2Gg => Mnemonic::Umlsll,
        Code::SmeUmlsllSBQV2Gi => Mnemonic::Umlsll,
        Code::SmeUmlsllSBQV2Gs => Mnemonic::Umlsll,
        Code::SmeUmlsllSBQV4Gg => Mnemonic::Umlsll,
        Code::SmeUmlsllSBQV4Gi => Mnemonic::Umlsll,
        Code::SmeUmlsllSBQV4Gs => Mnemonic::Umlsll,
        Code::SmeUmop4aD => Mnemonic::Umop4a,
        Code::SmeUmop4aHs => Mnemonic::Umop4a,
        Code::SmeUmop4aS => Mnemonic::Umop4a,
        Code::SmeUmop4sD => Mnemonic::Umop4s,
        Code::SmeUmop4sHs => Mnemonic::Umop4s,
        Code::SmeUmop4sS => Mnemonic::Umop4s,
        Code::SmeUmopaD => Mnemonic::Umopa,
        Code::SmeUmopaHs => Mnemonic::Umopa,
        Code::SmeUmopaS => Mnemonic::Umopa,
        Code::SmeUmopsD => Mnemonic::Umops,
        Code::SmeUmopsHs => Mnemonic::Umops,
        Code::SmeUmopsS => Mnemonic::Umops,
        Code::SmeUqcvt => Mnemonic::Uqcvt,
        Code::SmeUqcvtnNarrow => Mnemonic::Uqcvtn,
        Code::SmeUqrshr => Mnemonic::Uqrshr,
        Code::SmeUqrshrV2 => Mnemonic::Uqrshr,
        Code::SmeUqrshrn => Mnemonic::Uqrshrn,
        Code::SmeUrshlMV2 => Mnemonic::Urshl,
        Code::SmeUrshlMV4 => Mnemonic::Urshl,
        Code::SmeUrshlMVS2 => Mnemonic::Urshl,
        Code::SmeUrshlMVS4 => Mnemonic::Urshl,
        Code::SmeUsdotSBV2Gg => Mnemonic::Usdot,
        Code::SmeUsdotSBV2Gi => Mnemonic::Usdot,
        Code::SmeUsdotSBV2Gs => Mnemonic::Usdot,
        Code::SmeUsdotSBV4Gg => Mnemonic::Usdot,
        Code::SmeUsdotSBV4Gi => Mnemonic::Usdot,
        Code::SmeUsdotSBV4Gs => Mnemonic::Usdot,
        Code::SmeUsmlallSBQSi => Mnemonic::Usmlall,
        Code::SmeUsmlallSBQSs => Mnemonic::Usmlall,
        Code::SmeUsmlallSBQV2Gg => Mnemonic::Usmlall,
        Code::SmeUsmlallSBQV2Gi => Mnemonic::Usmlall,
        Code::SmeUsmlallSBQV2Gs => Mnemonic::Usmlall,
        Code::SmeUsmlallSBQV4Gg => Mnemonic::Usmlall,
        Code::SmeUsmlallSBQV4Gi => Mnemonic::Usmlall,
        Code::SmeUsmlallSBQV4Gs => Mnemonic::Usmlall,
        Code::SmeUsmop4aD => Mnemonic::Usmop4a,
        Code::SmeUsmop4aS => Mnemonic::Usmop4a,
        Code::SmeUsmop4sD => Mnemonic::Usmop4s,
        Code::SmeUsmop4sS => Mnemonic::Usmop4s,
        Code::SmeUsmopaD => Mnemonic::Usmopa,
        Code::SmeUsmopaS => Mnemonic::Usmopa,
        Code::SmeUsmopsD => Mnemonic::Usmops,
        Code::SmeUsmopsS => Mnemonic::Usmops,
        Code::SmeUstmopaSB => Mnemonic::Ustmopa,
        Code::SmeUsvdotSBV4Gi => Mnemonic::Usvdot,
        Code::SmeUtmopaSB => Mnemonic::Utmopa,
        Code::SmeUtmopaSH => Mnemonic::Utmopa,
        Code::SmeUunpk => Mnemonic::Uunpk,
        Code::SmeUvdotDHV4Gi => Mnemonic::Uvdot,
        Code::SmeUvdotSBV4Gi => Mnemonic::Uvdot,
        Code::SmeUvdotSHV2Gi => Mnemonic::Uvdot,
        Code::SmeUzpMV2 => Mnemonic::Uzp,
        Code::SmeUzpMV4 => Mnemonic::Uzp,
        Code::SmeZeroArray => Mnemonic::Zero,
        Code::SmeZeroMask => Mnemonic::Zero,
        Code::SmeZeroZt0 => Mnemonic::Zero,
        Code::SmeZipMV2 => Mnemonic::Zip,
        Code::SmeZipMV4 => Mnemonic::Zip,
        _ => default_mnemonic_3(x),
    }
}

fn default_mnemonic_3(x: Code) -> (r: Mnemonic)
    ensures
        r == code_mnemonic_3(x),
{
    match x {
        Code::SveAbaLong => Mnemonic::Aba,
        Code::SveAbaSame => Mnemonic::Aba,
        Code::SveAbdLong => Mnemonic::Abd,
        Code::SveAbsZpz => Mnemonic::Abs,
        Code::SveAdalp => Mnemonic::Adalp,
        Code::SveAddCarryLong => Mnemonic::Add,
        Code::SveAddHighNarrow => Mnemonic::Add,
        Code::SveAddLong => Mnemonic::Add,
        Code::SveAddLongBt => Mnemonic::Add,
        Code::SveAddWide => Mnemonic::Add,
        Code::SveAddZi => Mnemonic::Add,
        Code::SveAddZpzz => Mnemonic::Add,
        Code::SveAddZzz => Mnemonic::Add,
        Code::SveAddpl => Mnemonic::Addpl,
        Code::SveAddptPred => Mnemonic::Addpt,
        Code::SveAddptUnpred => Mnemonic::Addpt,
        Code::SveAddqv => Mnemonic::Addqv,
        Code::SveAddspl => Mnemonic::Addspl,
        Code::SveAddsvl => Mnemonic::Addsvl,
        Code::SveAddvl => Mnemonic::Addvl,
        Code::SveAdrSameScaled => Mnemonic::Adr,
        Code::SveAdrSxtw => Mnemonic::Adr,
        Code::SveAdrUxtw => Mnemonic::Adr,
        Code::SveAesMc => Mnemonic::Aes,
        Code::SveAesZz => Mnemonic::Aes,
        Code::SveAndZi => Mnemonic::And,
        Code::SveAndZpzz => Mnemonic::And,
        Code::SveAndZzz => Mnemonic::And,
        Code::SveAndqv => Mnemonic::Andqv,
        Code::SveAndv => Mnemonic::Andv,
        Code::SveAsrWide => Mnemonic::Asr,
        Code::SveAsrWidePred => Mnemonic::Asr,
        Code::SveAsrZi => Mnemonic::Asr,
        Code::SveAsrZpzi => Mnemonic::Asr,
        Code::SveAsrZpzz => Mnemonic::Asr,
        Code::SveAsrdZpzi => Mnemonic::Asrd,
        Code::SveAsrrZpzz => Mnemonic::Asrr,
        Code::SveBcax => Mnemonic::Bcax,
        Code::SveBfcvt => Mnemonic::Bfcvt,
        Code::SveBfcvtZ => Mnemonic::Bfcvt,
        Code::SveBfcvtnt => Mnemonic::Bfcvtnt,
        Code::SveBfdot => Mnemonic::Bfdot,
        Code::SveBfdotIdx => Mnemonic::Bfdot,
        Code::SveBfmlaIdx => Mnemonic::Bfmla,
        Code::SveBfmlalb => Mnemonic::Bfmlalb,
        Code::SveBfmlalbIdx => Mnemonic::Bfmlalb,
        Code::SveBfmlalt => Mnemonic::Bfmlalt,
        Code::SveBfmlaltIdx => Mnemonic::Bfmlalt,
        Code::SveBfmlsIdx => Mnemonic::Bfmls,
        Code::SveBfmmla => Mnemonic::Bfmmla,
        Code::SveBfmulIdx => Mnemonic::Bfmul,
        Code::SveBicZpzz => Mnemonic::Bic,
        Code::SveBicZzz => Mnemonic::Bic,
        Code::SveBitPerm => Mnemonic::Bit,
        Code::SveBrkPred => Mnemonic::Brk,
        Code::SveBrkn => Mnemonic::Brkn,
        Code::SveBrkpPred => Mnemonic::Brkp,
        Code::SveBsl => Mnemonic::Bsl,
        Code::SveBsl1n => Mnemonic::Bsl1n,
        Code::SveBsl2n => Mnemonic::Bsl2n,
        Code::SveCadd => Mnemonic::Cadd,
        Code::SveCdot => Mnemonic::Cdot,
        Code::SveCdotIdx => Mnemonic::Cdot,
        Code::SveClastR => Mnemonic::Clast,
        Code::SveClastV => Mnemonic::Clast,
        Code::SveClastZ => Mnemonic::Clast,
        Code::SveClsZpz => Mnemonic::Cls,
        Code::SveClzZpz => Mnemonic::Clz,
        Code::SveCmla => Mnemonic::Cmla,
        Code::SveCmlaIdx => Mnemonic::Cmla,
        Code::SveCmpZi => Mnemonic::Cmp,
        Code::SveCmpZw => Mnemonic::Cmp,
        Code::SveCmpZz => Mnemonic::Cmp,
        Code::SveCnotZpz => Mnemonic::Cnot,
        Code::SveCntElem => Mnemonic::Cnt,
        Code::SveCntZpz => Mnemonic::Cnt,
        Code::SveCntp => Mnemonic::Cntp,
        Code::SveCompact => Mnemonic::Compact,
        Code::SveCpyImmMerge => Mnemonic::Cpy,
        Code::SveCpyImmZero => Mnemonic::Cpy,
        Code::SveCpyScalar => Mnemonic::Cpy,
        Code::SveCpyVec => Mnemonic::Cpy,
        Code::SveCterm => Mnemonic::Cterm,
        Code::SveDotMixed => Mnemonic::Dot,
        Code::SveDupIdx => Mnemonic::Dup,
        Code::SveDupImm => Mnemonic::Dup,
        Code::SveDupScalar => Mnemonic::Dup,
        Code::SveDupmZi => Mnemonic::Dupm,
        Code::SveDupq => Mnemonic::Dupq,
        Code::SveEor3 => Mnemonic::Eor3,
        Code::SveEorInterleave => Mnemonic::Eor,
        Code::SveEorZi => Mnemonic::Eor,
        Code::SveEorZpzz => Mnemonic::Eor,
        Code::SveEorZzz => Mnemonic::Eor,
        Code::SveEorqv => Mnemonic::Eorqv,
        Code::SveEorv => Mnemonic::Eorv,
        Code::SveExpand => Mnemonic::Expand,
        Code::SveExtCon => Mnemonic::Ext,
        Code::SveExtDes => Mnemonic::Ext,
        Code::SveExtq => Mnemonic::Extq,
        Code::SveExtractNarrow => Mnemonic::Extract,
        Code::SveFabdZpzz => Mnemonic::Fabd,
        Code::SveFabsZpz => Mnemonic::Fabs,
        Code::SveFacgeZz => Mnemonic::Facge,
        Code::SveFacgtZz => Mnemonic::Facgt,
        Code::SveFaddZpzi => Mnemonic::Fadd,
        Code::SveFaddZpzz => Mnemonic::Fadd,
        Code::SveFaddZzz => Mnemonic::Fadd,
        Code::SveFadda => Mnemonic::Fadda,
        Code::SveFaddpZpzz => Mnemonic::Faddp,
        Code::SveFaddqv => Mnemonic::Faddqv,
        Code::SveFaddv => Mnemonic::Faddv,
        Code::SveFcadd => Mnemonic::Fcadd,
        Code::SveFcmeqZ0 => Mnemonic::Fcmeq,
        Code::SveFcmeqZz => Mnemonic::Fcmeq,
        Code::SveFcmgeZ0 => Mnemonic::Fcmge,
        Code::SveFcmgeZz => Mnemonic::Fcmge,
        Code::SveFcmgtZ0 => Mnemonic::Fcmgt,
        Code::SveFcmgtZz => Mnemonic::Fcmgt,
        Code::SveFcmlaIdx => Mnemonic::Fcmla,
        Code::SveFcmlaZpzzz => Mnemonic::Fcmla,
        Code::SveFcmleZ0 => Mnemonic::Fcmle,
        Code::SveFcmltZ0 => Mnemonic::Fcmlt,
        Code::SveFcmneZ0 => Mnemonic::Fcmne,
        Code::SveFcmneZz => Mnemonic::Fcmne,
        Code::SveFcmuoZz => Mnemonic::Fcmuo,
        Code::SveFcpy => Mnemonic::Fcpy,
        Code::SveFcvt => Mnemonic::Fcvt,
        Code::SveFcvtZ => Mnemonic::Fcvt,
        Code::SveFcvtlt => Mnemonic::Fcvtlt,
        Code::SveFcvtnt => Mnemonic::Fcvtnt,
        Code::SveFcvtx => Mnemonic::Fcvtx,
        Code::SveFcvtxZ => Mnemonic::Fcvtx,
        Code::SveFcvtxnt => Mnemonic::Fcvtxnt,
        Code::SveFcvtzs => Mnemonic::Fcvtzs,
        Code::SveFcvtzsZ => Mnemonic::Fcvtzs,
        Code::SveFcvtzu => Mnemonic::Fcvtzu,
        Code::SveFcvtzuZ => Mnemonic::Fcvtzu,
        Code::SveFdivZpzz => Mnemonic::Fdiv,
        Code::SveFdivrZpzz => Mnemonic::Fdivr,
        Code::SveFdup => Mnemonic::Fdup,
        Code::SveFexpa => Mnemonic::Fexpa,
        Code::SveFirstp => Mnemonic::Firstp,
        Code::SveFlogbZ => Mnemonic::Flogb,
        Code::SveFlogbZpz => Mnemonic::Flogb,
        Code::SveFmadZpzzz => Mnemonic::Fmad,
        Code::SveFmaxZpzi => Mnemonic::Fmax,
        Code::SveFmaxZpzz => Mnemonic::Fmax,
        Code::SveFmaxnmZpzi => Mnemonic::Fmaxnm,
        Code::SveFmaxnmZpzz => Mnemonic::Fmaxnm,
        Code::SveFmaxnmpZpzz => Mnemonic::Fmaxnmp,
        Code::SveFmaxnmqv => Mnemonic::Fmaxnmqv,
        Code::SveFmaxnmv => Mnemonic::Fmaxnmv,
        Code::SveFmaxpZpzz => Mnemonic::Fmaxp,
        Code::SveFmaxqv => Mnemonic::Fmaxqv,
        Code::SveFmaxv => Mnemonic::Fmaxv,
        Code::SveFminZpzi => Mnemonic::Fmin,
        Code::SveFminZpzz => Mnemonic::Fmin,
        Code::SveFminnmZpzi => Mnemonic::Fminnm,
        Code::SveFminnmZpzz => Mnemonic::Fminnm,
        Code::SveFminnmpZpzz => Mnemonic::Fminnmp,
        Code::SveFminnmqv => Mnemonic::Fminnmqv,
        Code::SveFminnmv => Mnemonic::Fminnmv,
        Code::SveFminpZpzz => Mnemonic::Fminp,
        Code::SveFminqv => Mnemonic::Fminqv,
        Code::SveFminv => Mnemonic::Fminv,
        Code::SveFmlaIdx => Mnemonic::Fmla,
        Code::SveFmlaZpzzz => Mnemonic::Fmla,
        Code::SveFmlalb => Mnemonic::Fmlalb,
        Code::SveFmlalbFp8Idx => Mnemonic::Fmlalb,
        Code::SveFmlalbIdx => Mnemonic::Fmlalb,
        Code::SveFmlallbbFp8Idx => Mnemonic::Fmlallbb,
        Code::SveFmlallbtFp8Idx => Mnemonic::Fmlallbt,
        Code::SveFmlalltbFp8Idx => Mnemonic::Fmlalltb,
        Code::SveFmlallttFp8Idx => Mnemonic::Fmlalltt,
        Code::SveFmlalt => Mnemonic::Fmlalt,
        Code::SveFmlaltFp8Idx => Mnemonic::Fmlalt,
        Code::SveFmlaltIdx => Mnemonic::Fmlalt,
        Code::SveFmlsIdx => Mnemonic::Fmls,
        Code::SveFmlsZpzzz => Mnemonic::Fmls,
        Code::SveFmlslb => Mnemonic::Fmlslb,
        Code::SveFmlslbIdx => Mnemonic::Fmlslb,
        Code::SveFmlslt => Mnemonic::Fmlslt,
        Code::SveFmlsltIdx => Mnemonic::Fmlslt,
        Code::SveFmmla => Mnemonic::Fmmla,
        Code::SveFmsbZpzzz => Mnemonic::Fmsb,
        Code::SveFmulIdx => Mnemonic::Fmul,
        Code::SveFmulZpzi => Mnemonic::Fmul,
        Code::SveFmulZpzz => Mnemonic::Fmul,
        Code::SveFmulZzz => Mnemonic::Fmul,
        Code::SveFmulxZpzz => Mnemonic::Fmulx,
        Code::SveFnegZpz => Mnemonic::Fneg,
        Code::SveFnmadZpzzz => Mnemonic::Fnmad,
        Code::SveFnmlaZpzzz => Mnemonic::Fnmla,
        Code::SveFnmlsZpzzz => Mnemonic::Fnmls,
        Code::SveFnmsbZpzzz => Mnemonic::Fnmsb,
        Code::SveFrecpe => Mnemonic::Frecpe,
        Code::SveFrecpsZzz => Mnemonic::Frecps,
        Code::SveFrecpxZ => Mnemonic::Frecpx,
        Code::SveFrecpxZpz => Mnemonic::Frecpx,
        _ => default_mnemonic_4(x),
    }
}

fn default_mnemonic_4(x: Code) -> (r: Mnemonic)
    ensures
        r == code_mnemonic_4(x),
{
    match x {
        Code::SveFrintaZ => Mnemonic::Frinta,
        Code::SveFrintaZpz => Mnemonic::Frinta,
        Code::SveFrintiZ => Mnemonic::Frinti,
        Code::SveFrintiZpz => Mnemonic::Frinti,
        Code::SveFrintmZ => Mnemonic::Frintm,
        Code::SveFrintmZpz => Mnemonic::Frintm,
        Code::SveFrintnZ => Mnemonic::Frintn,
        Code::SveFrintnZpz => Mnemonic::Frintn,
        Code::SveFrintpZ => Mnemonic::Frintp,
        Code::SveFrintpZpz => Mnemonic::Frintp,
        Code::SveFrintxZ => Mnemonic::Frintx,
        Code::SveFrintxZpz => Mnemonic::Frintx,
        Code::SveFrintzZ => Mnemonic::Frintz,
        Code::SveFrintzZpz => Mnemonic::Frintz,
        Code::SveFrsqrte => Mnemonic::Frsqrte,
        Code::SveFrsqrtsZzz => Mnemonic::Frsqrts,
        Code::SveFscaleZpzz => Mnemonic::Fscale,
        Code::SveFsqrtZ => Mnemonic::Fsqrt,
        Code::SveFsqrtZpz => Mnemonic::Fsqrt,
        Code::SveFsubZpzi => Mnemonic::Fsub,
        Code::SveFsubZpzz => Mnemonic::Fsub,
        Code::SveFsubZzz => Mnemonic::Fsub,
        Code::SveFsubrZpzi => Mnemonic::Fsubr,
        Code::SveFsubrZpzz => Mnemonic::Fsubr,
        Code::SveFtmad => Mnemonic::Ftmad,
        Code::SveFtsmulZzz => Mnemonic::Ftsmul,
        Code::SveFtssel => Mnemonic::Ftssel,
        Code::SveHalvingZpzz => Mnemonic::Halving,
        Code::SveHistcnt => Mnemonic::Histcnt,
        Code::SveHistseg => Mnemonic::Histseg,
        Code::SveIncDecPScalar => Mnemonic::Inc,
        Code::SveIncDecPVector => Mnemonic::Inc,
        Code::SveIncDecScalar => Mnemonic::Inc,
        Code::SveIncDecVector => Mnemonic::Inc,
        Code::SveIndexImmImm => Mnemonic::Index,
        Code::SveIndexIr => Mnemonic::Index,
        Code::SveIndexRi => Mnemonic::Index,
        Code::SveIndexRr => Mnemonic::Index,
        Code::SveInsrScalar => Mnemonic::Insr,
        Code::SveInsrVec => Mnemonic::Insr,
        Code::SveLastR => Mnemonic::Last,
        Code::SveLastV => Mnemonic::Last,
        Code::SveLastp => Mnemonic::Lastp,
        Code::SveLd1bG32 => Mnemonic::Ld1b,
        Code::SveLd1bG64 => Mnemonic::Ld1b,
        Code::SveLd1bImm => Mnemonic::Ld1b,
        Code::SveLd1bSs => Mnemonic::Ld1b,
        Code::SveLd1bVi => Mnemonic::Ld1b,
        Code::SveLd1dG32 => Mnemonic::Ld1d,
        Code::SveLd1dG64 => Mnemonic::Ld1d,
        Code::SveLd1dImm => Mnemonic::Ld1d,
        Code::SveLd1dSs => Mnemonic::Ld1d,
        Code::SveLd1dVi => Mnemonic::Ld1d,
        Code::SveLd1dqImm => Mnemonic::Ld1d,
        Code::SveLd1dqSs => Mnemonic::Ld1d,
        Code::SveLd1hG32 => Mnemonic::Ld1h,
        Code::SveLd1hG64 => Mnemonic::Ld1h,
        Code::SveLd1hImm => Mnemonic::Ld1h,
        Code::SveLd1hSs => Mnemonic::Ld1h,
        Code::SveLd1hVi => Mnemonic::Ld1h,
        Code::SveLd1qG => Mnemonic::Ld1q,
        Code::SveLd1rbImm => Mnemonic::Ld1rb,
        Code::SveLd1rdImm => Mnemonic::Ld1rd,
        Code::SveLd1rhImm => Mnemonic::Ld1rh,
        Code::SveLd1robImm => Mnemonic::Ld1rob,
        Code::SveLd1robSs => Mnemonic::Ld1rob,
        Code::SveLd1rodImm => Mnemonic::Ld1rod,
        Code::SveLd1rodSs => Mnemonic::Ld1rod,
        Code::SveLd1rohImm => Mnemonic::Ld1roh,
        Code::SveLd1rohSs => Mnemonic::Ld1roh,
        Code::SveLd1rowImm => Mnemonic::Ld1row,
        Code::SveLd1rowSs => Mnemonic::Ld1row,
        Code::SveLd1rqbImm => Mnemonic::Ld1rqb,
        Code::SveLd1rqbSs => Mnemonic::Ld1rqb,
        Code::SveLd1rqdImm => Mnemonic::Ld1rqd,
        Code::SveLd1rqdSs => Mnemonic::Ld1rqd,
        Code::SveLd1rqhImm => Mnemonic::Ld1rqh,
        Code::SveLd1rqhSs => Mnemonic::Ld1rqh,
        Code::SveLd1rqwImm => Mnemonic::Ld1rqw,
        Code::SveLd1rqwSs => Mnemonic::Ld1rqw,
        Code::SveLd1rsbImm => Mnemonic::Ld1rsb,
        Code::SveLd1rshImm => Mnemonic::Ld1rsh,
        Code::SveLd1rswImm => Mnemonic::Ld1rsw,
        Code::SveLd1rwImm => Mnemonic::Ld1rw,
        Code::SveLd1sbG32 => Mnemonic::Ld1sb,
        Code::SveLd1sbG64 => Mnemonic::Ld1sb,
        Code::SveLd1sbImm => Mnemonic::Ld1sb,
        Code::SveLd1sbSs => Mnemonic::Ld1sb,
        Code::SveLd1sbVi => Mnemonic::Ld1sb,
        Code::SveLd1shG32 => Mnemonic::Ld1sh,
        Code::SveLd1shG64 => Mnemonic::Ld1sh,
        Code::SveLd1shImm => Mnemonic::Ld1sh,
        Code::SveLd1shSs => Mnemonic::Ld1sh,
        Code::SveLd1shVi => Mnemonic::Ld1sh,
        Code::SveLd1swG32 => Mnemonic::Ld1sw,
        Code::SveLd1swG64 => Mnemonic::Ld1sw,
        Code::SveLd1swImm => Mnemonic::Ld1sw,
        Code::SveLd1swSs => Mnemonic::Ld1sw,
        Code::SveLd1swVi => Mnemonic::Ld1sw,
        Code::SveLd1wG32 => Mnemonic::Ld1w,
        Code::SveLd1wG64 => Mnemonic::Ld1w,
        Code::SveLd1wImm => Mnemonic::Ld1w,
        Code::SveLd1wSs => Mnemonic::Ld1w,
        Code::SveLd1wVi => Mnemonic::Ld1w,
        Code::SveLd1wqImm => Mnemonic::Ld1w,
        Code::SveLd1wqSs => Mnemonic::Ld1w,
        Code::SveLd2bImm => Mnemonic::Ld2b,
        Code::SveLd2bSs => Mnemonic::Ld2b,
        Code::SveLd2dImm => Mnemonic::Ld2d,
        Code::SveLd2dSs => Mnemonic::Ld2d,
        Code::SveLd2hImm => Mnemonic::Ld2h,
        Code::SveLd2hSs => Mnemonic::Ld2h,
        Code::SveLd2qImm => Mnemonic::Ld2q,
        Code::SveLd2qSs => Mnemonic::Ld2q,
        Code::SveLd2wImm => Mnemonic::Ld2w,
        Code::SveLd2wSs => Mnemonic::Ld2w,
        Code::SveLd3bImm => Mnemonic::Ld3b,
        Code::SveLd3bSs => Mnemonic::Ld3b,
        Code::SveLd3dImm => Mnemonic::Ld3d,
        Code::SveLd3dSs => Mnemonic::Ld3d,
        Code::SveLd3hImm => Mnemonic::Ld3h,
        Code::SveLd3hSs => Mnemonic::Ld3h,
        Code::SveLd3qImm => Mnemonic::Ld3q,
        Code::SveLd3qSs => Mnemonic::Ld3q,
        Code::SveLd3wImm => Mnemonic::Ld3w,
        Code::SveLd3wSs => Mnemonic::Ld3w,
        Code::SveLd4bImm => Mnemonic::Ld4b,
        Code::SveLd4bSs => Mnemonic::Ld4b,
        Code::SveLd4dImm => Mnemonic::Ld4d,
        Code::SveLd4dSs => Mnemonic::Ld4d,
        Code::SveLd4hImm => Mnemonic::Ld4h,
        Code::SveLd4hSs => Mnemonic::Ld4h,
        Code::SveLd4qImm => Mnemonic::Ld4q,
        Code::SveLd4qSs => Mnemonic::Ld4q,
        Code::SveLd4wImm => Mnemonic::Ld4w,
        Code::SveLd4wSs => Mnemonic::Ld4w,
        Code::SveLdff1bG32 => Mnemonic::Ldff1b,
        Code::SveLdff1bG64 => Mnemonic::Ldff1b,
        Code::SveLdff1bSs => Mnemonic::Ldff1b,
        Code::SveLdff1bVi => Mnemonic::Ldff1b,
        Code::SveLdff1dG32 => Mnemonic::Ldff1d,
        Code::SveLdff1dG64 => Mnemonic::Ldff1d,
        Code::SveLdff1dSs => Mnemonic::Ldff1d,
        Code::SveLdff1dVi => Mnemonic::Ldff1d,
        Code::SveLdff1hG32 => Mnemonic::Ldff1h,
        Code::SveLdff1hG64 => Mnemonic::Ldff1h,
        Code::SveLdff1hSs => Mnemonic::Ldff1h,
        Code::SveLdff1hVi => Mnemonic::Ldff1h,
        Code::SveLdff1sbG32 => Mnemonic::Ldff1sb,
        Code::SveLdff1sbG64 => Mnemonic::Ldff1sb,
        Code::SveLdff1sbSs => Mnemonic::Ldff1sb,
        Code::SveLdff1sbVi => Mnemonic::Ldff1sb,
        Code::SveLdff1shG32 => Mnemonic::Ldff1sh,
        Code::SveLdff1shG64 => Mnemonic::Ldff1sh,
        Code::SveLdff1shSs => Mnemonic::Ldff1sh,
        Code::SveLdff1shVi => Mnemonic::Ldff1sh,
        Code::SveLdff1swG32 => Mnemonic::Ldff1sw,
        Code::SveLdff1swG64 => Mnemonic::Ldff1sw,
        Code::SveLdff1swSs => Mnemonic::Ldff1sw,
        Code::SveLdff1swVi => Mnemonic::Ldff1sw,
        Code::SveLdff1wG32 => Mnemonic::Ldff1w,
        Code::SveLdff1wG64 => Mnemonic::Ldff1w,
        Code::SveLdff1wSs => Mnemonic::Ldff1w,
        Code::SveLdff1wVi => Mnemonic::Ldff1w,
        Code::SveLdnf1bImm => Mnemonic::Ldnf1b,
        Code::SveLdnf1dImm => Mnemonic::Ldnf1d,
        Code::SveLdnf1hImm => Mnemonic::Ldnf1h,
        Code::SveLdnf1sbImm => Mnemonic::Ldnf1sb,
        Code::SveLdnf1shImm => Mnemonic::Ldnf1sh,
        Code::SveLdnf1swImm => Mnemonic::Ldnf1sw,
        Code::SveLdnf1wImm => Mnemonic::Ldnf1w,
        Code::SveLdnt1bImm => Mnemonic::Ldnt1b,
        Code::SveLdnt1bSs => Mnemonic::Ldnt1b,
        Code::SveLdnt1bVs => Mnemonic::Ldnt1b,
        Code::SveLdnt1dImm => Mnemonic::Ldnt1d,
        Code::SveLdnt1dSs => Mnemonic::Ldnt1d,
        Code::SveLdnt1dVs => Mnemonic::Ldnt1d,
        Code::SveLdnt1hImm => Mnemonic::Ldnt1h,
        Code::SveLdnt1hSs => Mnemonic::Ldnt1h,
        Code::SveLdnt1hVs => Mnemonic::Ldnt1h,
        Code::SveLdnt1sbImm => Mnemonic::Ldnt1sb,
        Code::SveLdnt1sbSs => Mnemonic::Ldnt1sb,
        Code::SveLdnt1sbVs => Mnemonic::Ldnt1sb,
        Code::SveLdnt1shImm => Mnemonic::Ldnt1sh,
        Code::SveLdnt1shSs => Mnemonic::Ldnt1sh,
        Code::SveLdnt1shVs => Mnemonic::Ldnt1sh,
        Code::SveLdnt1swImm => Mnemonic::Ldnt1sw,
        Code::SveLdnt1swSs => Mnemonic::Ldnt1sw,
        Code::SveLdnt1swVs => Mnemonic::Ldnt1sw,
        Code::SveLdnt1wImm => Mnemonic::Ldnt1w,
        Code::SveLdnt1wSs => Mnemonic::Ldnt1w,
        Code::SveLdnt1wVs => Mnemonic::Ldnt1w,
        Code::SveLdrP => Mnemonic::Ldr,
        Code::SveLdrZ => Mnemonic::Ldr,
        Code::SveLslWide => Mnemonic::Lsl,
        Code::SveLslWidePred => Mnemonic::Lsl,
        Code::SveLslZi => Mnemonic::Lsl,
        Code::SveLslZpzi => Mnemonic::Lsl,
        Code::SveLslZpzz => Mnemonic::Lsl,
        Code::SveLslrZpzz => Mnemonic::Lslr,
        _ => default_mnemonic_5(x),
    }
}

fn default_mnemonic_5(x: Code) -> (r: Mnemonic)
    ensures
        r == code_mnemonic_5(x),
{
    match x {
        Code::SveLsrWide => Mnemonic::Lsr,
        Code::SveLsrWidePred => Mnemonic::Lsr,
        Code::SveLsrZi => Mnemonic::Lsr,
        Code::SveLsrZpzi => Mnemonic::Lsr,
        Code::SveLsrZpzz => Mnemonic::Lsr,
        Code::SveLsrrZpzz => Mnemonic::Lsrr,
        Code::SveLuti2 => Mnemonic::Luti2,
        Code::SveLuti4 => Mnemonic::Luti4,
        Code::SveLuti4Two => Mnemonic::Luti4,
        Code::SveMadZpzzz => Mnemonic::Mad,
        Code::SveMatch => Mnemonic::Match,
        Code::SveMatmulInt => Mnemonic::Matmul,
        Code::SveMlaIdx => Mnemonic::Mla,
        Code::SveMlaLong => Mnemonic::Mla,
        Code::SveMlaLongIdx => Mnemonic::Mla,
        Code::SveMlaZpzzz => Mnemonic::Mla,
        Code::SveMlsIdx => Mnemonic::Mls,
        Code::SveMlsZpzzz => Mnemonic::Mls,
        Code::SveMovZzz => Mnemonic::Mov,
        Code::SveMovprfxZpz => Mnemonic::Movprfx,
        Code::SveMovprfxZz => Mnemonic::Movprfx,
        Code::SveMsbZpzzz => Mnemonic::Msb,
        Code::SveMulIdx => Mnemonic::Mul,
        Code::SveMulLong => Mnemonic::Mul,
        Code::SveMulLongIdx => Mnemonic::Mul,
        Code::SveMulZi => Mnemonic::Mul,
        Code::SveMulZpzz => Mnemonic::Mul,
        Code::SveMulZzz => Mnemonic::Mul,
        Code::SveNbsl => Mnemonic::Nbsl,
        Code::SveNegZpz => Mnemonic::Neg,
        Code::SveNotZpz => Mnemonic::Not,
        Code::SveOrqv => Mnemonic::Orqv,
        Code::SveOrrZi => Mnemonic::Orr,
        Code::SveOrrZpzz => Mnemonic::Orr,
        Code::SveOrrZzz => Mnemonic::Orr,
        Code::SveOrv => Mnemonic::Orv,
        Code::SvePairZpzz => Mnemonic::Pair,
        Code::SvePfalse => Mnemonic::Pfalse,
        Code::SvePfirst => Mnemonic::Pfirst,
        Code::SvePmov => Mnemonic::Pmov,
        Code::SvePmulLong => Mnemonic::Pmul,
        Code::SvePmulZzz => Mnemonic::Pmul,
        Code::SvePnext => Mnemonic::Pnext,
        Code::SvePredLogical => Mnemonic::Pred,
        Code::SvePrfbG32 => Mnemonic::Prfb,
        Code::SvePrfbG64 => Mnemonic::Prfb,
        Code::SvePrfbImm => Mnemonic::Prfb,
        Code::SvePrfbSs => Mnemonic::Prfb,
        Code::SvePrfbVi => Mnemonic::Prfb,
        Code::SvePrfdG32 => Mnemonic::Prfd,
        Code::SvePrfdG64 => Mnemonic::Prfd,
        Code::SvePrfdImm => Mnemonic::Prfd,
        Code::SvePrfdSs => Mnemonic::Prfd,
        Code::SvePrfdVi => Mnemonic::Prfd,
        Code::SvePrfhG32 => Mnemonic::Prfh,
        Code::SvePrfhG64 => Mnemonic::Prfh,
        Code::SvePrfhImm => Mnemonic::Prfh,
        Code::SvePrfhSs => Mnemonic::Prfh,
        Code::SvePrfhVi => Mnemonic::Prfh,
        Code::SvePrfwG32 => Mnemonic::Prfw,
        Code::SvePrfwG64 => Mnemonic::Prfw,
        Code::SvePrfwImm => Mnemonic::Prfw,
        Code::SvePrfwSs => Mnemonic::Prfw,
        Code::SvePrfwVi => Mnemonic::Prfw,
        Code::SvePsel => Mnemonic::Psel,
        Code::SvePtest => Mnemonic::Ptest,
        Code::SvePtrue => Mnemonic::Ptrue,
        Code::SvePunpk => Mnemonic::Punpk,
        Code::SveRax1 => Mnemonic::Rax1,
        Code::SveRbitZpz => Mnemonic::Rbit,
        Code::SveRdffr => Mnemonic::Rdffr,
        Code::SveRdffrPred => Mnemonic::Rdffr,
        Code::SveRdsvl => Mnemonic::Rdsvl,
        Code::SveRdvl => Mnemonic::Rdvl,
        Code::SveRecipEst => Mnemonic::Recip,
        Code::SveRevP => Mnemonic::Rev,
        Code::SveRevZz => Mnemonic::Rev,
        Code::SveRevbhw => Mnemonic::Revbhw,
        Code::SveRevdZpzZero => Mnemonic::Revd,
        Code::SveSabal => Mnemonic::Sabal,
        Code::SveSabdZpzz => Mnemonic::Sabd,
        Code::SveSaddv => Mnemonic::Saddv,
        Code::SveSatRoundZpzz => Mnemonic::Sat,
        Code::SveSatUnaryZpz => Mnemonic::Sat,
        Code::SveSclamp => Mnemonic::Sclamp,
        Code::SveScvtf => Mnemonic::Scvtf,
        Code::SveScvtfZ => Mnemonic::Scvtf,
        Code::SveSdivZpzz => Mnemonic::Sdiv,
        Code::SveSdivrZpzz => Mnemonic::Sdivr,
        Code::SveSdot => Mnemonic::Sdot,
        Code::SveSdotH => Mnemonic::Sdot,
        Code::SveSdotHIdx => Mnemonic::Sdot,
        Code::SveSdotIdx => Mnemonic::Sdot,
        Code::SveSelPred => Mnemonic::Sel,
        Code::SveSelZpzz => Mnemonic::Sel,
        Code::SveSetffr => Mnemonic::Setffr,
        Code::SveShiftAccum => Mnemonic::Shift,
        Code::SveShiftInsert => Mnemonic::Shift,
        Code::SveShiftLongImm => Mnemonic::Shift,
        Code::SveShiftNarrow => Mnemonic::Shift,
        Code::SveSm4e => Mnemonic::Sm4e,
        Code::SveSm4ekey => Mnemonic::Sm4ekey,
        Code::SveSmaxZi => Mnemonic::Smax,
        Code::SveSmaxZpzz => Mnemonic::Smax,
        Code::SveSmaxqv => Mnemonic::Smaxqv,
        Code::SveSmaxv => Mnemonic::Smaxv,
        Code::SveSminZi => Mnemonic::Smin,
        Code::SveSminZpzz => Mnemonic::Smin,
        Code::SveSminqv => Mnemonic::Sminqv,
        Code::SveSminv => Mnemonic::Sminv,
        Code::SveSmulhZpzz => Mnemonic::Smulh,
        Code::SveSmulhZzz => Mnemonic::Smulh,
        Code::SveSpliceCon => Mnemonic::Splice,
        Code::SveSpliceDes => Mnemonic::Splice,
        Code::SveSqIncDecPScalarSx => Mnemonic::Sq,
        Code::SveSqIncDecScalarSx => Mnemonic::Sq,
        Code::SveSqaddZi => Mnemonic::Sqadd,
        Code::SveSqaddZzz => Mnemonic::Sqadd,
        Code::SveSqcadd => Mnemonic::Sqcadd,
        Code::SveSqdmlalLong => Mnemonic::Sqdmlal,
        Code::SveSqdmlalLongBt => Mnemonic::Sqdmlal,
        Code::SveSqdmlalLongIdx => Mnemonic::Sqdmlal,
        Code::SveSqdmulLong => Mnemonic::Sqdmul,
        Code::SveSqdmulLongIdx => Mnemonic::Sqdmul,
        Code::SveSqdmulhIdx => Mnemonic::Sqdmulh,
        Code::SveSqrdcmlah => Mnemonic::Sqrdcmlah,
        Code::SveSqrdcmlahIdx => Mnemonic::Sqrdcmlah,
        Code::SveSqrdmlah => Mnemonic::Sqrdmlah,
        Code::SveSqrdmlahIdx => Mnemonic::Sqrdmlah,
        Code::SveSqrdmlsh => Mnemonic::Sqrdmlsh,
        Code::SveSqrdmlshIdx => Mnemonic::Sqrdmlsh,
        Code::SveSqrdmulhIdx => Mnemonic::Sqrdmulh,
        Code::SveSqsubZi => Mnemonic::Sqsub,
        Code::SveSqsubZzz => Mnemonic::Sqsub,
        Code::SveSt1bG32 => Mnemonic::St1b,
        Code::SveSt1bG64 => Mnemonic::St1b,
        Code::SveSt1bImm => Mnemonic::St1b,
        Code::SveSt1bSs => Mnemonic::St1b,
        Code::SveSt1bVi => Mnemonic::St1b,
        Code::SveSt1dG32 => Mnemonic::St1d,
        Code::SveSt1dG64 => Mnemonic::St1d,
        Code::SveSt1dImm => Mnemonic::St1d,
        Code::SveSt1dSs => Mnemonic::St1d,
        Code::SveSt1dVi => Mnemonic::St1d,
        Code::SveSt1dqImm => Mnemonic::St1d,
        Code::SveSt1dqSs => Mnemonic::St1d,
        Code::SveSt1hG32 => Mnemonic::St1h,
        Code::SveSt1hG64 => Mnemonic::St1h,
        Code::SveSt1hImm => Mnemonic::St1h,
        Code::SveSt1hSs => Mnemonic::St1h,
        Code::SveSt1hVi => Mnemonic::St1h,
        Code::SveSt1qS => Mnemonic::St1q,
        Code::SveSt1wG32 => Mnemonic::St1w,
        Code::SveSt1wG64 => Mnemonic::St1w,
        Code::SveSt1wImm => Mnemonic::St1w,
        Code::SveSt1wSs => Mnemonic::St1w,
        Code::SveSt1wVi => Mnemonic::St1w,
        Code::SveSt1wqImm => Mnemonic::St1w,
        Code::SveSt1wqSs => Mnemonic::St1w,
        Code::SveSt2bImm => Mnemonic::St2b,
        Code::SveSt2bSs => Mnemonic::St2b,
        Code::SveSt2dImm => Mnemonic::St2d,
        Code::SveSt2dSs => Mnemonic::St2d,
        Code::SveSt2hImm => Mnemonic::St2h,
        Code::SveSt2hSs => Mnemonic::St2h,
        Code::SveSt2qImm => Mnemonic::St2q,
        Code::SveSt2qSs => Mnemonic::St2q,
        Code::SveSt2wImm => Mnemonic::St2w,
        Code::SveSt2wSs => Mnemonic::St2w,
        Code::SveSt3bImm => Mnemonic::St3b,
        Code::SveSt3bSs => Mnemonic::St3b,
        Code::SveSt3dImm => Mnemonic::St3d,
        Code::SveSt3dSs => Mnemonic::St3d,
        Code::SveSt3hImm => Mnemonic::St3h,
        Code::SveSt3hSs => Mnemonic::St3h,
        Code::SveSt3qImm => Mnemonic::St3q,
        Code::SveSt3qSs => Mnemonic::St3q,
        Code::SveSt3wImm => Mnemonic::St3w,
        Code::SveSt3wSs => Mnemonic::St3w,
        Code::SveSt4bImm => Mnemonic::St4b,
        Code::SveSt4bSs => Mnemonic::St4b,
        Code::SveSt4dImm => Mnemonic::St4d,
        Code::SveSt4dSs => Mnemonic::St4d,
        Code::SveSt4hImm => Mnemonic::St4h,
        Code::SveSt4hSs => Mnemonic::St4h,
        Code::SveSt4qImm => Mnemonic::St4q,
        Code::SveSt4qSs => Mnemonic::St4q,
        Code::SveSt4wImm => Mnemonic::St4w,
        Code::SveSt4wSs => Mnemonic::St4w,
        Code::SveStnt1bImm => Mnemonic::Stnt1b,
        Code::SveStnt1bSs => Mnemonic::Stnt1b,
        Code::SveStnt1bVs => Mnemonic::Stnt1b,
        Code::SveStnt1dImm => Mnemonic::Stnt1d,
        Code::SveStnt1dSs => Mnemonic::Stnt1d,
        Code::SveStnt1dVs => Mnemonic::Stnt1d,
        Code::SveStnt1hImm => Mnemonic::Stnt1h,
        Code::SveStnt1hSs => Mnemonic::Stnt1h,
        Code::SveStnt1hVs => Mnemonic::Stnt1h,
        Code::SveStnt1wImm => Mnemonic::Stnt1w,
        Code::SveStnt1wSs => Mnemonic::Stnt1w,
        _ => default_mnemonic_6(x),
    }
}

fn default_mnemonic_6(x: Code) -> (r: Mnemonic)
    ensures
        r == code_mnemonic_6(x),
{
    match x {
        Code::SveStnt1wVs => Mnemonic::Stnt1w,
        Code::SveStrP => Mnemonic::Str,
        Code::SveStrZ => Mnemonic::Str,
        Code::SveSubZi => Mnemonic::Sub,
        Code::SveSubZpzz => Mnemonic::Sub,
        Code::SveSubZzz => Mnemonic::Sub,
        Code::SveSubptPred => Mnemonic::Subpt,
        Code::SveSubptUnpred => Mnemonic::Subpt,
        Code::SveSubrZi => Mnemonic::Subr,
        Code::SveSubrZpzz => Mnemonic::Subr,
        Code::SveSxtbZpz => Mnemonic::Sxtb,
        Code::SveSxthZpz => Mnemonic::Sxth,
        Code::SveSxtwZpz => Mnemonic::Sxtw,
        Code::SveTbl => Mnemonic::Tbl,
        Code::SveTbl2 => Mnemonic::Tbl2,
        Code::SveTblq => Mnemonic::Tblq,
        Code::SveTbx => Mnemonic::Tbx,
        Code::SveTbxq => Mnemonic::Tbxq,
        Code::SveUabal => Mnemonic::Uabal,
        Code::SveUabdZpzz => Mnemonic::Uabd,
        Code::SveUaddv => Mnemonic::Uaddv,
        Code::SveUclamp => Mnemonic::Uclamp,
        Code::SveUcvtf => Mnemonic::Ucvtf,
        Code::SveUcvtfZ => Mnemonic::Ucvtf,
        Code::SveUdivZpzz => Mnemonic::Udiv,
        Code::SveUdivrZpzz => Mnemonic::Udivr,
        Code::SveUdot => Mnemonic::Udot,
        Code::SveUdotH => Mnemonic::Udot,
        Code::SveUdotHIdx => Mnemonic::Udot,
        Code::SveUdotIdx => Mnemonic::Udot,
        Code::SveUmaxZi => Mnemonic::Umax,
        Code::SveUmaxZpzz => Mnemonic::Umax,
        Code::SveUmaxqv => Mnemonic::Umaxqv,
        Code::SveUmaxv => Mnemonic::Umaxv,
        Code::SveUminZi => Mnemonic::Umin,
        Code::SveUminZpzz => Mnemonic::Umin,
        Code::SveUminqv => Mnemonic::Uminqv,
        Code::SveUminv => Mnemonic::Uminv,
        Code::SveUmulhZpzz => Mnemonic::Umulh,
        Code::SveUmulhZzz => Mnemonic::Umulh,
        Code::SveUnpk => Mnemonic::Unpk,
        Code::SveUqaddZi => Mnemonic::Uqadd,
        Code::SveUqaddZzz => Mnemonic::Uqadd,
        Code::SveUqsubZi => Mnemonic::Uqsub,
        Code::SveUqsubZzz => Mnemonic::Uqsub,
        Code::SveUxtbZpz => Mnemonic::Uxtb,
        Code::SveUxthZpz => Mnemonic::Uxth,
        Code::SveUxtwZpz => Mnemonic::Uxtw,
        Code::SveWhile => Mnemonic::While,
        Code::SveWhilePair => Mnemonic::While,
        Code::SveWhilePn => Mnemonic::While,
        Code::SveWhileRw => Mnemonic::While,
        Code::SveWrffr => Mnemonic::Wrffr,
        Code::SveXar => Mnemonic::Xar,
        Code::SveZipUzpTrnPpp => Mnemonic::Zip,
        Code::SveZipUzpTrnQ => Mnemonic::Zip,
        Code::SveZipUzpTrnZzz => Mnemonic::Zip,
        Code::SveZipqUzpq => Mnemonic::Zipq,
        _ => Mnemonic::Invalid,
    }
}

/// The lower-case assembler spelling of a mnemonic.
pub open spec fn mnemonic_spelling(x: Mnemonic) -> &'static str {
    match x {
        Mnemonic::Invalid => "invalid",
        Mnemonic::Aba => "aba",
        Mnemonic::Abd => "abd",
        Mnemonic::Abs => "abs",
        Mnemonic::Adalp => "adalp",
        Mnemonic::Adclb => "adclb",
        Mnemonic::Adclt => "adclt",
        Mnemonic::Add => "add",
        Mnemonic::Addha => "addha",
        Mnemonic::Addhnb => "addhnb",
        Mnemonic::Addhnt => "addhnt",
        Mnemonic::Addp => "addp",
        Mnemonic::Addpl => "addpl",
        Mnemonic::Addpt => "addpt",
        Mnemonic::Addqv => "addqv",
        Mnemonic::Addspl => "addspl",
        Mnemonic::Addsvl => "addsvl",
        Mnemonic::Addva => "addva",
        Mnemonic::Addvl => "addvl",
        Mnemonic::Adr => "adr",
        Mnemonic::Aes => "aes",
        Mnemonic::Aesd => "aesd",
        Mnemonic::Aese => "aese",
        Mnemonic::Aesimc => "aesimc",
        Mnemonic::Aesmc => "aesmc",
        Mnemonic::And => "and",
        Mnemonic::Andqv => "andqv",
        Mnemonic::Ands => "ands",
        Mnemonic::Andv => "andv",
        Mnemonic::Asr => "asr",
        Mnemonic::Asrd => "asrd",
        Mnemonic::Asrr => "asrr",
        Mnemonic::Bcax => "bcax",
        Mnemonic::Bdep => "bdep",
        Mnemonic::Bext => "bext",
        Mnemonic::Bf1cvt => "bf1cvt",
        Mnemonic::Bf1cvtl => "bf1cvtl",
        Mnemonic::Bf2cvt => "bf2cvt",
        Mnemonic::Bf2cvtl => "bf2cvtl",
        Mnemonic::Bfadd => "bfadd",
        Mnemonic::Bfclamp => "bfclamp",
        Mnemonic::Bfcvt => "bfcvt",
        Mnemonic::Bfcvtn => "bfcvtn",
        Mnemonic::Bfcvtnt => "bfcvtnt",
        Mnemonic::Bfdot => "bfdot",
        Mnemonic::Bfmax => "bfmax",
        Mnemonic::Bfmaxnm => "bfmaxnm",
        Mnemonic::Bfmin => "bfmin",
        Mnemonic::Bfminnm => "bfminnm",
        Mnemonic::Bfmla => "bfmla",
        Mnemonic::Bfmlal => "bfmlal",
        Mnemonic::Bfmlalb => "bfmlalb",
        Mnemonic::Bfmlalt => "bfmlalt",
        Mnemonic::Bfmls => "bfmls",
        Mnemonic::Bfmlsl => "bfmlsl",
        Mnemonic::Bfmmla => "bfmmla",
        Mnemonic::Bfmop4a => "bfmop4a",
        Mnemonic::Bfmop4s => "bfmop4s",
        Mnemonic::Bfmopa => "bfmopa",
        Mnemonic::Bfmops => "bfmops",
        Mnemonic::Bfmul => "bfmul",
        Mnemonic::Bfscale => "bfscale",
        Mnemonic::Bfsub => "bfsub",
        Mnemonic::Bftmopa => "bftmopa",
        Mnemonic::Bfvdot => "bfvdot",
        Mnemonic::Bgrp => "bgrp",
        Mnemonic::Bic => "bic",
        Mnemonic::Bics => "bics",
        Mnemonic::Bit => "bit",
        Mnemonic::Bmopa => "bmopa",
        Mnemonic::Bmops => "bmops",
        Mnemonic::Brk => "brk",
        Mnemonic::Brka => "brka",
        Mnemonic::Brkas => "brkas",
        Mnemonic::Brkb => "brkb",
        Mnemonic::Brkbs => "brkbs",
        Mnemonic::Brkn => "brkn",
        Mnemonic::Brkns => "brkns",
        Mnemonic::Brkp => "brkp",
        Mnemonic::Brkpa => "brkpa",
        Mnemonic::Brkpas => "brkpas",
        Mnemonic::Brkpb => "brkpb",
        Mnemonic::Brkpbs => "brkpbs",
        Mnemonic::Bsl => "bsl",
        Mnemonic::Bsl1n => "bsl1n",
        Mnemonic::Bsl2n => "bsl2n",
        Mnemonic::Cadd => "cadd",
        Mnemonic::Cdot => "cdot",
        Mnemonic::Clast => "clast",
        Mnemonic::Clasta => "clasta",
        Mnemonic::Clastb => "clastb",
        Mnemonic::Cls => "cls",
        Mnemonic::Clz => "clz",
        Mnemonic::Cmla => "cmla",
        Mnemonic::Cmp => "cmp",
        Mnemonic::Cmpeq => "cmpeq",
        Mnemonic::Cmpge => "cmpge",
        Mnemonic::Cmpgt => "cmpgt",
        Mnemonic::Cmphi => "cmphi",
        Mnemonic::Cmphs => "cmphs",
        Mnemonic::Cmple => "cmple",
        Mnemonic::Cmplo => "cmplo",
        Mnemonic::Cmpls => "cmpls",
        Mnemonic::Cmplt => "cmplt",
        Mnemonic::Cmpne => "cmpne",
        Mnemonic::Cnot => "cnot",
        Mnemonic::Cnt => "cnt",
        Mnemonic::Cntb => "cntb",
        Mnemonic::Cntd => "cntd",
        Mnemonic::Cnth => "cnth",
        Mnemonic::Cntp => "cntp",
        Mnemonic::Cntw => "cntw",
        Mnemonic::Compact => "compact",
        Mnemonic::Cpy => "cpy",
        Mnemonic::Cterm => "cterm",
        Mnemonic::Ctermeq => "ctermeq",
        Mnemonic::Ctermne => "ctermne",
        Mnemonic::Decb => "decb",
        Mnemonic::Decd => "decd",
        Mnemonic::Dech => "dech",
        Mnemonic::Decp => "decp",
        Mnemonic::Decw => "decw",
        Mnemonic::Dot => "dot",
        Mnemonic::Dup => "dup",
        Mnemonic::Dupm => "dupm",
        Mnemonic::Dupq => "dupq",
        Mnemonic::Eor => "eor",
        Mnemonic::Eor3 => "eor3",
        Mnemonic::Eorbt => "eorbt",
        Mnemonic::Eorqv => "eorqv",
        Mnemonic::Eors => "eors",
        Mnemonic::Eortb => "eortb",
        Mnemonic::Eorv => "eorv",
        Mnemonic::Expand => "expand",
        Mnemonic::Ext => "ext",
        Mnemonic::Extq => "extq",
        Mnemonic::Extract => "extract",
        Mnemonic::F1cvt => "f1cvt",
        Mnemonic::F1cvtl => "f1cvtl",
        Mnemonic::F2cvt => "f2cvt",
        Mnemonic::F2cvtl => "f2cvtl",
        Mnemonic::Fabd => "fabd",
        Mnemonic::Fabs => "fabs",
        Mnemonic::Facge => "facge",
        Mnemonic::Facgt => "facgt",
        Mnemonic::Fadd => "fadd",
        Mnemonic::Fadda => "fadda",
        Mnemonic::Faddp => "faddp",
        Mnemonic::Faddqv => "faddqv",
        Mnemonic::Faddv => "faddv",
        Mnemonic::Famax => "famax",
        Mnemonic::Famin => "famin",
        Mnemonic::Fcadd => "fcadd",
        Mnemonic::Fclamp => "fclamp",
        Mnemonic::Fcmeq => "fcmeq",
        Mnemonic::Fcmge => "fcmge",
        Mnemonic::Fcmgt => "fcmgt",
        Mnemonic::Fcmla => "fcmla",
        Mnemonic::Fcmle => "fcmle",
        Mnemonic::Fcmlt => "fcmlt",
        Mnemonic::Fcmne => "fcmne",
        Mnemonic::Fcmuo => "fcmuo",
        Mnemonic::Fcpy => "fcpy",
        Mnemonic::Fcvt => "fcvt",
        Mnemonic::Fcvtl => "fcvtl",
        Mnemonic::Fcvtlt => "fcvtlt",
        Mnemonic::Fcvtn => "fcvtn",
        Mnemonic::Fcvtnt => "fcvtnt",
        Mnemonic::Fcvtx => "fcvtx",
        Mnemonic::Fcvtxnt => "fcvtxnt",
        Mnemonic::Fcvtzs => "fcvtzs",
        Mnemonic::Fcvtzu => "fcvtzu",
        Mnemonic::Fdiv => "fdiv",
        Mnemonic::Fdivr => "fdivr",
        Mnemonic::Fdot => "fdot",
        Mnemonic::Fdup => "fdup",
        Mnemonic::Fexpa => "fexpa",
        Mnemonic::Firstp => "firstp",
        Mnemonic::Flogb => "flogb",
        Mnemonic::Fmad => "fmad",
        Mnemonic::Fmax => "fmax",
        Mnemonic::Fmaxnm => "fmaxnm",
        Mnemonic::Fmaxnmp => "fmaxnmp",
        Mnemonic::Fmaxnmqv => "fmaxnmqv",
        Mnemonic::Fmaxnmv => "fmaxnmv",
        Mnemonic::Fmaxp => "fmaxp",
        Mnemonic::Fmaxqv => "fmaxqv",
        Mnemonic::Fmaxv => "fmaxv",
        Mnemonic::Fmin => "fmin",
        Mnemonic::Fminnm => "fminnm",
        Mnemonic::Fminnmp => "fminnmp",
        Mnemonic::Fminnmqv => "fminnmqv",
        Mnemonic::Fminnmv => "fminnmv",
        Mnemonic::Fminp => "fminp",
        Mnemonic::Fminqv => "fminqv",
        Mnemonic::Fminv => "fminv",
        Mnemonic::Fmla => "fmla",
        Mnemonic::Fmlal => "fmlal",
        Mnemonic::Fmlalb => "fmlalb",
        Mnemonic::Fmlall => "fmlall",
        Mnemonic::Fmlallbb => "fmlallbb",
        _ => mnemonic_spelling_1(x),
    }
}

/// Continuation of [`mnemonic_spelling`].
pub open spec fn mnemonic_spelling_1(x: Mnemonic) -> &'static str {
    match x {
        Mnemonic::Fmlallbt => "fmlallbt",
        Mnemonic::Fmlalltb => "fmlalltb",
        Mnemonic::Fmlalltt => "fmlalltt",
        Mnemonic::Fmlalt => "fmlalt",
        Mnemonic::Fmls => "fmls",
        Mnemonic::Fmlsl => "fmlsl",
        Mnemonic::Fmlslb => "fmlslb",
        Mnemonic::Fmlslt => "fmlslt",
        Mnemonic::Fmmla => "fmmla",
        Mnemonic::Fmop4a => "fmop4a",
        Mnemonic::Fmop4s => "fmop4s",
        Mnemonic::Fmopa => "fmopa",
        Mnemonic::Fmops => "fmops",
        Mnemonic::Fmov => "fmov",
        Mnemonic::Fmsb => "fmsb",
        Mnemonic::Fmul => "fmul",
        Mnemonic::Fmulx => "fmulx",
        Mnemonic::Fneg => "fneg",
        Mnemonic::Fnmad => "fnmad",
        Mnemonic::Fnmla => "fnmla",
        Mnemonic::Fnmls => "fnmls",
        Mnemonic::Fnmsb => "fnmsb",
        Mnemonic::Frecpe => "frecpe",
        Mnemonic::Frecps => "frecps",
        Mnemonic::Frecpx => "frecpx",
        Mnemonic::Frinta => "frinta",
        Mnemonic::Frinti => "frinti",
        Mnemonic::Frintm => "frintm",
        Mnemonic::Frintn => "frintn",
        Mnemonic::Frintp => "frintp",
        Mnemonic::Frintx => "frintx",
        Mnemonic::Frintz => "frintz",
        Mnemonic::Frsqrte => "frsqrte",
        Mnemonic::Frsqrts => "frsqrts",
        Mnemonic::Fscale => "fscale",
        Mnemonic::Fsqrt => "fsqrt",
        Mnemonic::Fsub => "fsub",
        Mnemonic::Fsubr => "fsubr",
        Mnemonic::Ftmad => "ftmad",
        Mnemonic::Ftmopa => "ftmopa",
        Mnemonic::Ftsmul => "ftsmul",
        Mnemonic::Ftssel => "ftssel",
        Mnemonic::Fvdot => "fvdot",
        Mnemonic::Fvdotb => "fvdotb",
        Mnemonic::Fvdott => "fvdott",
        Mnemonic::Halving => "halving",
        Mnemonic::Histcnt => "histcnt",
        Mnemonic::Histseg => "histseg",
        Mnemonic::Inc => "inc",
        Mnemonic::Incb => "incb",
        Mnemonic::Incd => "incd",
        Mnemonic::Inch => "inch",
        Mnemonic::Incp => "incp",
        Mnemonic::Incw => "incw",
        Mnemonic::Index => "index",
        Mnemonic::Insr => "insr",
        Mnemonic::Last => "last",
        Mnemonic::Lasta => "lasta",
        Mnemonic::Lastb => "lastb",
        Mnemonic::Lastp => "lastp",
        Mnemonic::Ld1b => "ld1b",
        Mnemonic::Ld1d => "ld1d",
        Mnemonic::Ld1h => "ld1h",
        Mnemonic::Ld1q => "ld1q",
        Mnemonic::Ld1rb => "ld1rb",
        Mnemonic::Ld1rd => "ld1rd",
        Mnemonic::Ld1rh => "ld1rh",
        Mnemonic::Ld1rob => "ld1rob",
        Mnemonic::Ld1rod => "ld1rod",
        Mnemonic::Ld1roh => "ld1roh",
        Mnemonic::Ld1row => "ld1row",
        Mnemonic::Ld1rqb => "ld1rqb",
        Mnemonic::Ld1rqd => "ld1rqd",
        Mnemonic::Ld1rqh => "ld1rqh",
        Mnemonic::Ld1rqw => "ld1rqw",
        Mnemonic::Ld1rsb => "ld1rsb",
        Mnemonic::Ld1rsh => "ld1rsh",
        Mnemonic::Ld1rsw => "ld1rsw",
        Mnemonic::Ld1rw => "ld1rw",
        Mnemonic::Ld1sb => "ld1sb",
        Mnemonic::Ld1sh => "ld1sh",
        Mnemonic::Ld1sw => "ld1sw",
        Mnemonic::Ld1w => "ld1w",
        Mnemonic::Ld2b => "ld2b",
        Mnemonic::Ld2d => "ld2d",
        Mnemonic::Ld2h => "ld2h",
        Mnemonic::Ld2q => "ld2q",
        Mnemonic::Ld2w => "ld2w",
        Mnemonic::Ld3b => "ld3b",
        Mnemonic::Ld3d => "ld3d",
        Mnemonic::Ld3h => "ld3h",
        Mnemonic::Ld3q => "ld3q",
        Mnemonic::Ld3w => "ld3w",
        Mnemonic::Ld4b => "ld4b",
        Mnemonic::Ld4d => "ld4d",
        Mnemonic::Ld4h => "ld4h",
        Mnemonic::Ld4q => "ld4q",
        Mnemonic::Ld4w => "ld4w",
        Mnemonic::Ldff1b => "ldff1b",
        Mnemonic::Ldff1d => "ldff1d",
        Mnemonic::Ldff1h => "ldff1h",
        Mnemonic::Ldff1sb => "ldff1sb",
        Mnemonic::Ldff1sh => "ldff1sh",
        Mnemonic::Ldff1sw => "ldff1sw",
        Mnemonic::Ldff1w => "ldff1w",
        Mnemonic::Ldnf1b => "ldnf1b",
        Mnemonic::Ldnf1d => "ldnf1d",
        Mnemonic::Ldnf1h => "ldnf1h",
        Mnemonic::Ldnf1sb => "ldnf1sb",
        Mnemonic::Ldnf1sh => "ldnf1sh",
        Mnemonic::Ldnf1sw => "ldnf1sw",
        Mnemonic::Ldnf1w => "ldnf1w",
        Mnemonic::Ldnt1b => "ldnt1b",
        Mnemonic::Ldnt1d => "ldnt1d",
        Mnemonic::Ldnt1h => "ldnt1h",
        Mnemonic::Ldnt1sb => "ldnt1sb",
        Mnemonic::Ldnt1sh => "ldnt1sh",
        Mnemonic::Ldnt1sw => "ldnt1sw",
        Mnemonic::Ldnt1w => "ldnt1w",
        Mnemonic::Ldr => "ldr",
        Mnemonic::Lsl => "lsl",
        Mnemonic::Lslr => "lslr",
        Mnemonic::Lsr => "lsr",
        Mnemonic::Lsrr => "lsrr",
        Mnemonic::Luti2 => "luti2",
        Mnemonic::Luti4 => "luti4",
        Mnemonic::Luti6 => "luti6",
        Mnemonic::Mad => "mad",
        Mnemonic::Match => "match",
        Mnemonic::Matmul => "matmul",
        Mnemonic::Mla => "mla",
        Mnemonic::Mls => "mls",
        Mnemonic::Mov => "mov",
        Mnemonic::Mova => "mova",
        Mnemonic::Movaz => "movaz",
        Mnemonic::Movprfx => "movprfx",
        Mnemonic::Movs => "movs",
        Mnemonic::Movt => "movt",
        Mnemonic::Msb => "msb",
        Mnemonic::Mul => "mul",
        Mnemonic::Nand => "nand",
        Mnemonic::Nands => "nands",
        Mnemonic::Nbsl => "nbsl",
        Mnemonic::Neg => "neg",
        Mnemonic::Nmatch => "nmatch",
        Mnemonic::Nor => "nor",
        Mnemonic::Nors => "nors",
        Mnemonic::Not => "not",
        Mnemonic::Nots => "nots",
        Mnemonic::Orn => "orn",
        Mnemonic::Orns => "orns",
        Mnemonic::Orqv => "orqv",
        Mnemonic::Orr => "orr",
        Mnemonic::Orrs => "orrs",
        Mnemonic::Orv => "orv",
        Mnemonic::Pair => "pair",
        Mnemonic::Pfalse => "pfalse",
        Mnemonic::Pfirst => "pfirst",
        Mnemonic::Pmov => "pmov",
        Mnemonic::Pmul => "pmul",
        Mnemonic::Pmullb => "pmullb",
        Mnemonic::Pmullt => "pmullt",
        Mnemonic::Pnext => "pnext",
        Mnemonic::Pred => "pred",
        Mnemonic::Prfb => "prfb",
        Mnemonic::Prfd => "prfd",
        Mnemonic::Prfh => "prfh",
        Mnemonic::Prfw => "prfw",
        Mnemonic::Psel => "psel",
        Mnemonic::Ptest => "ptest",
        Mnemonic::Ptrue => "ptrue",
        Mnemonic::Ptrues => "ptrues",
        Mnemonic::Punpk => "punpk",
        Mnemonic::Punpkhi => "punpkhi",
        Mnemonic::Punpklo => "punpklo",
        Mnemonic::Raddhnb => "raddhnb",
        Mnemonic::Raddhnt => "raddhnt",
        Mnemonic::Rax1 => "rax1",
        Mnemonic::Rbit => "rbit",
        Mnemonic::Rdffr => "rdffr",
        Mnemonic::Rdffrs => "rdffrs",
        Mnemonic::Rdsvl => "rdsvl",
        Mnemonic::Rdvl => "rdvl",
        Mnemonic::Recip => "recip",
        Mnemonic::Rev => "rev",
        Mnemonic::Revb => "revb",
        Mnemonic::Revbhw => "revbhw",
        Mnemonic::Revd => "revd",
        Mnemonic::Revh => "revh",
        Mnemonic::Revw => "revw",
        Mnemonic::Rshrnb => "rshrnb",
        Mnemonic::Rshrnt => "rshrnt",
        Mnemonic::Rsubhnb => "rsubhnb",
        Mnemonic::Rsubhnt => "rsubhnt",
        Mnemonic::Saba => "saba",
        Mnemonic::Sabal => "sabal",
        Mnemonic::Sabalb => "sabalb",
        Mnemonic::Sabalt => "sabalt",
        Mnemonic::Sabd => "sabd",
        Mnemonic::Sabdlb => "sabdlb",
        _ => mnemonic_spelling_2(x),
    }
}

/// Continuation of [`mnemonic_spelling`].
pub open spec fn mnemonic_spelling_2(x: Mnemonic) -> &'static str {
    match x {
        Mnemonic::Sabdlt => "sabdlt",
        Mnemonic::Sadalp => "sadalp",
        Mnemonic::Saddlb => "saddlb",
        Mnemonic::Saddlbt => "saddlbt",
        Mnemonic::Saddlt => "saddlt",
        Mnemonic::Saddv => "saddv",
        Mnemonic::Saddwb => "saddwb",
        Mnemonic::Saddwt => "saddwt",
        Mnemonic::Sat => "sat",
        Mnemonic::Sbclb => "sbclb",
        Mnemonic::Sbclt => "sbclt",
        Mnemonic::Sclamp => "sclamp",
        Mnemonic::Scvtf => "scvtf",
        Mnemonic::Sdiv => "sdiv",
        Mnemonic::Sdivr => "sdivr",
        Mnemonic::Sdot => "sdot",
        Mnemonic::Sel => "sel",
        Mnemonic::Setffr => "setffr",
        Mnemonic::Shadd => "shadd",
        Mnemonic::Shift => "shift",
        Mnemonic::Shrnb => "shrnb",
        Mnemonic::Shrnt => "shrnt",
        Mnemonic::Shsub => "shsub",
        Mnemonic::Shsubr => "shsubr",
        Mnemonic::Sli => "sli",
        Mnemonic::Sm4e => "sm4e",
        Mnemonic::Sm4ekey => "sm4ekey",
        Mnemonic::Smax => "smax",
        Mnemonic::Smaxp => "smaxp",
        Mnemonic::Smaxqv => "smaxqv",
        Mnemonic::Smaxv => "smaxv",
        Mnemonic::Smin => "smin",
        Mnemonic::Sminp => "sminp",
        Mnemonic::Sminqv => "sminqv",
        Mnemonic::Sminv => "sminv",
        Mnemonic::Smlal => "smlal",
        Mnemonic::Smlalb => "smlalb",
        Mnemonic::Smlall => "smlall",
        Mnemonic::Smlalt => "smlalt",
        Mnemonic::Smlsl => "smlsl",
        Mnemonic::Smlslb => "smlslb",
        Mnemonic::Smlsll => "smlsll",
        Mnemonic::Smlslt => "smlslt",
        Mnemonic::Smmla => "smmla",
        Mnemonic::Smop4a => "smop4a",
        Mnemonic::Smop4s => "smop4s",
        Mnemonic::Smopa => "smopa",
        Mnemonic::Smops => "smops",
        Mnemonic::Smulh => "smulh",
        Mnemonic::Smullb => "smullb",
        Mnemonic::Smullt => "smullt",
        Mnemonic::Splice => "splice",
        Mnemonic::Sq => "sq",
        Mnemonic::Sqabs => "sqabs",
        Mnemonic::Sqadd => "sqadd",
        Mnemonic::Sqcadd => "sqcadd",
        Mnemonic::Sqcvt => "sqcvt",
        Mnemonic::Sqcvtn => "sqcvtn",
        Mnemonic::Sqcvtu => "sqcvtu",
        Mnemonic::Sqcvtun => "sqcvtun",
        Mnemonic::Sqdecb => "sqdecb",
        Mnemonic::Sqdecd => "sqdecd",
        Mnemonic::Sqdech => "sqdech",
        Mnemonic::Sqdecp => "sqdecp",
        Mnemonic::Sqdecw => "sqdecw",
        Mnemonic::Sqdmlal => "sqdmlal",
        Mnemonic::Sqdmlalb => "sqdmlalb",
        Mnemonic::Sqdmlalbt => "sqdmlalbt",
        Mnemonic::Sqdmlalt => "sqdmlalt",
        Mnemonic::Sqdmlslb => "sqdmlslb",
        Mnemonic::Sqdmlslbt => "sqdmlslbt",
        Mnemonic::Sqdmlslt => "sqdmlslt",
        Mnemonic::Sqdmul => "sqdmul",
        Mnemonic::Sqdmulh => "sqdmulh",
        Mnemonic::Sqdmullb => "sqdmullb",
        Mnemonic::Sqdmullt => "sqdmullt",
        Mnemonic::Sqincb => "sqincb",
        Mnemonic::Sqincd => "sqincd",
        Mnemonic::Sqinch => "sqinch",
        Mnemonic::Sqincp => "sqincp",
        Mnemonic::Sqincw => "sqincw",
        Mnemonic::Sqneg => "sqneg",
        Mnemonic::Sqrdcmlah => "sqrdcmlah",
        Mnemonic::Sqrdmlah => "sqrdmlah",
        Mnemonic::Sqrdmlsh => "sqrdmlsh",
        Mnemonic::Sqrdmulh => "sqrdmulh",
        Mnemonic::Sqrshl => "sqrshl",
        Mnemonic::Sqrshlr => "sqrshlr",
        Mnemonic::Sqrshr => "sqrshr",
        Mnemonic::Sqrshrn => "sqrshrn",
        Mnemonic::Sqrshrnb => "sqrshrnb",
        Mnemonic::Sqrshrnt => "sqrshrnt",
        Mnemonic::Sqrshru => "sqrshru",
        Mnemonic::Sqrshrun => "sqrshrun",
        Mnemonic::Sqrshrunb => "sqrshrunb",
        Mnemonic::Sqrshrunt => "sqrshrunt",
        Mnemonic::Sqshl => "sqshl",
        Mnemonic::Sqshlr => "sqshlr",
        Mnemonic::Sqshlu => "sqshlu",
        Mnemonic::Sqshrnb => "sqshrnb",
        Mnemonic::Sqshrnt => "sqshrnt",
        Mnemonic::Sqshrunb => "sqshrunb",
        Mnemonic::Sqshrunt => "sqshrunt",
        Mnemonic::Sqsub => "sqsub",
        Mnemonic::Sqsubr => "sqsubr",
        Mnemonic::Sqxtnb => "sqxtnb",
        Mnemonic::Sqxtnt => "sqxtnt",
        Mnemonic::Sqxtunb => "sqxtunb",
        Mnemonic::Sqxtunt => "sqxtunt",
        Mnemonic::Srhadd => "srhadd",
        Mnemonic::Sri => "sri",
        Mnemonic::Srshl => "srshl",
        Mnemonic::Srshlr => "srshlr",
        Mnemonic::Srshr => "srshr",
        Mnemonic::Srsra => "srsra",
        Mnemonic::Sshllb => "sshllb",
        Mnemonic::Sshllt => "sshllt",
        Mnemonic::Ssra => "ssra",
        Mnemonic::Ssublb => "ssublb",
        Mnemonic::Ssublbt => "ssublbt",
        Mnemonic::Ssublt => "ssublt",
        Mnemonic::Ssubltb => "ssubltb",
        Mnemonic::Ssubwb => "ssubwb",
        Mnemonic::Ssubwt => "ssubwt",
        Mnemonic::St1b => "st1b",
        Mnemonic::St1d => "st1d",
        Mnemonic::St1h => "st1h",
        Mnemonic::St1q => "st1q",
        Mnemonic::St1w => "st1w",
        Mnemonic::St2b => "st2b",
        Mnemonic::St2d => "st2d",
        Mnemonic::St2h => "st2h",
        Mnemonic::St2q => "st2q",
        Mnemonic::St2w => "st2w",
        Mnemonic::St3b => "st3b",
        Mnemonic::St3d => "st3d",
        Mnemonic::St3h => "st3h",
        Mnemonic::St3q => "st3q",
        Mnemonic::St3w => "st3w",
        Mnemonic::St4b => "st4b",
        Mnemonic::St4d => "st4d",
        Mnemonic::St4h => "st4h",
        Mnemonic::St4q => "st4q",
        Mnemonic::St4w => "st4w",
        Mnemonic::Stmopa => "stmopa",
        Mnemonic::Stnt1b => "stnt1b",
        Mnemonic::Stnt1d => "stnt1d",
        Mnemonic::Stnt1h => "stnt1h",
        Mnemonic::Stnt1w => "stnt1w",
        Mnemonic::Str => "str",
        Mnemonic::Sub => "sub",
        Mnemonic::Subhnb => "subhnb",
        Mnemonic::Subhnt => "subhnt",
        Mnemonic::Subpt => "subpt",
        Mnemonic::Subr => "subr",
        Mnemonic::Sudot => "sudot",
        Mnemonic::Sumlall => "sumlall",
        Mnemonic::Sumop4a => "sumop4a",
        Mnemonic::Sumop4s => "sumop4s",
        Mnemonic::Sumopa => "sumopa",
        Mnemonic::Sumops => "sumops",
        Mnemonic::Sunpk => "sunpk",
        Mnemonic::Sunpkhi => "sunpkhi",
        Mnemonic::Sunpklo => "sunpklo",
        Mnemonic::Suqadd => "suqadd",
        Mnemonic::Sutmopa => "sutmopa",
        Mnemonic::Suvdot => "suvdot",
        Mnemonic::Svdot => "svdot",
        Mnemonic::Sxtb => "sxtb",
        Mnemonic::Sxth => "sxth",
        Mnemonic::Sxtw => "sxtw",
        Mnemonic::Tbl => "tbl",
        Mnemonic::Tbl2 => "tbl2",
        Mnemonic::Tblq => "tblq",
        Mnemonic::Tbx => "tbx",
        Mnemonic::Tbxq => "tbxq",
        Mnemonic::Trn1 => "trn1",
        Mnemonic::Trn2 => "trn2",
        Mnemonic::Uaba => "uaba",
        Mnemonic::Uabal => "uabal",
        Mnemonic::Uabalb => "uabalb",
        Mnemonic::Uabalt => "uabalt",
        Mnemonic::Uabd => "uabd",
        Mnemonic::Uabdlb => "uabdlb",
        Mnemonic::Uabdlt => "uabdlt",
        Mnemonic::Uadalp => "uadalp",
        Mnemonic::Uaddlb => "uaddlb",
        Mnemonic::Uaddlt => "uaddlt",
        Mnemonic::Uaddv => "uaddv",
        Mnemonic::Uaddwb => "uaddwb",
        Mnemonic::Uaddwt => "uaddwt",
        Mnemonic::Uclamp => "uclamp",
        Mnemonic::Ucvtf => "ucvtf",
        Mnemonic::Udiv => "udiv",
        Mnemonic::Udivr => "udivr",
        Mnemonic::Udot => "udot",
        Mnemonic::Uhadd => "uhadd",
        Mnemonic::Uhsub => "uhsub",
        Mnemonic::Uhsubr => "uhsubr",
        Mnemonic::Umax => "umax",
        _ => mnemonic_spelling_3(x),
    }
}

/// Continuation of [`mnemonic_spelling`].
pub open spec fn mnemonic_spelling_3(x: Mnemonic) -> &'static str {
    match x {
        Mnemonic::Umaxp => "umaxp",
        Mnemonic::Umaxqv => "umaxqv",
        Mnemonic::Umaxv => "umaxv",
        Mnemonic::Umin => "umin",
        Mnemonic::Uminp => "uminp",
        Mnemonic::Uminqv => "uminqv",
        Mnemonic::Uminv => "uminv",
        Mnemonic::Umlal => "umlal",
        Mnemonic::Umlalb => "umlalb",
        Mnemonic::Umlall => "umlall",
        Mnemonic::Umlalt => "umlalt",
        Mnemonic::Umlsl => "umlsl",
        Mnemonic::Umlslb => "umlslb",
        Mnemonic::Umlsll => "umlsll",
        Mnemonic::Umlslt => "umlslt",
        Mnemonic::Ummla => "ummla",
        Mnemonic::Umop4a => "umop4a",
        Mnemonic::Umop4s => "umop4s",
        Mnemonic::Umopa => "umopa",
        Mnemonic::Umops => "umops",
        Mnemonic::Umulh => "umulh",
        Mnemonic::Umullb => "umullb",
        Mnemonic::Umullt => "umullt",
        Mnemonic::Unpk => "unpk",
        Mnemonic::Uqadd => "uqadd",
        Mnemonic::Uqcvt => "uqcvt",
        Mnemonic::Uqcvtn => "uqcvtn",
        Mnemonic::Uqdecb => "uqdecb",
        Mnemonic::Uqdecd => "uqdecd",
        Mnemonic::Uqdech => "uqdech",
        Mnemonic::Uqdecp => "uqdecp",
        Mnemonic::Uqdecw => "uqdecw",
        Mnemonic::Uqincb => "uqincb",
        Mnemonic::Uqincd => "uqincd",
        Mnemonic::Uqinch => "uqinch",
        Mnemonic::Uqincp => "uqincp",
        Mnemonic::Uqincw => "uqincw",
        Mnemonic::Uqrshl => "uqrshl",
        Mnemonic::Uqrshlr => "uqrshlr",
        Mnemonic::Uqrshr => "uqrshr",
        Mnemonic::Uqrshrn => "uqrshrn",
        Mnemonic::Uqrshrnb => "uqrshrnb",
        Mnemonic::Uqrshrnt => "uqrshrnt",
        Mnemonic::Uqshl => "uqshl",
        Mnemonic::Uqshlr => "uqshlr",
        Mnemonic::Uqshrnb => "uqshrnb",
        Mnemonic::Uqshrnt => "uqshrnt",
        Mnemonic::Uqsub => "uqsub",
        Mnemonic::Uqsubr => "uqsubr",
        Mnemonic::Uqxtnb => "uqxtnb",
        Mnemonic::Uqxtnt => "uqxtnt",
        Mnemonic::Urecpe => "urecpe",
        Mnemonic::Urhadd => "urhadd",
        Mnemonic::Urshl => "urshl",
        Mnemonic::Urshlr => "urshlr",
        Mnemonic::Urshr => "urshr",
        Mnemonic::Ursqrte => "ursqrte",
        Mnemonic::Ursra => "ursra",
        Mnemonic::Usdot => "usdot",
        Mnemonic::Ushllb => "ushllb",
        Mnemonic::Ushllt => "ushllt",
        Mnemonic::Usmlall => "usmlall",
        Mnemonic::Usmmla => "usmmla",
        Mnemonic::Usmop4a => "usmop4a",
        Mnemonic::Usmop4s => "usmop4s",
        Mnemonic::Usmopa => "usmopa",
        Mnemonic::Usmops => "usmops",
        Mnemonic::Usqadd => "usqadd",
        Mnemonic::Usra => "usra",
        Mnemonic::Ustmopa => "ustmopa",
        Mnemonic::Usublb => "usublb",
        Mnemonic::Usublt => "usublt",
        Mnemonic::Usubwb => "usubwb",
        Mnemonic::Usubwt => "usubwt",
        Mnemonic::Usvdot => "usvdot",
        Mnemonic::Utmopa => "utmopa",
        Mnemonic::Uunpk => "uunpk",
        Mnemonic::Uunpkhi => "uunpkhi",
        Mnemonic::Uunpklo => "uunpklo",
        Mnemonic::Uvdot => "uvdot",
        Mnemonic::Uxtb => "uxtb",
        Mnemonic::Uxth => "uxth",
        Mnemonic::Uxtw => "uxtw",
        Mnemonic::Uzp => "uzp",
        Mnemonic::Uzp1 => "uzp1",
        Mnemonic::Uzp2 => "uzp2",
        Mnemonic::Uzpq1 => "uzpq1",
        Mnemonic::Uzpq2 => "uzpq2",
        Mnemonic::While => "while",
        Mnemonic::Whilege => "whilege",
        Mnemonic::Whilegt => "whilegt",
        Mnemonic::Whilehi => "whilehi",
        Mnemonic::Whilehs => "whilehs",
        Mnemonic::Whilele => "whilele",
        Mnemonic::Whilelo => "whilelo",
        Mnemonic::Whilels => "whilels",
        Mnemonic::Whilelt => "whilelt",
        Mnemonic::Whilerw => "whilerw",
        Mnemonic::Whilewr => "whilewr",
        Mnemonic::Wrffr => "wrffr",
        Mnemonic::Xar => "xar",
        Mnemonic::Zero => "zero",
        Mnemonic::Zip => "zip",
        Mnemonic::Zip1 => "zip1",
        Mnemonic::Zip2 => "zip2",
        Mnemonic::Zipq => "zipq",
        Mnemonic::Zipq1 => "zipq1",
        Mnemonic::Zipq2 => "zipq2",
        _ => "invalid",
    }
}

/// Executable form of [`mnemonic_spelling`].
pub fn mnemonic_text(x: Mnemonic) -> (r: &'static str)
    ensures
        r == mnemonic_spelling(x),
{
    match x {
        Mnemonic::Invalid => "invalid",
        Mnemonic::Aba => "aba",
        Mnemonic::Abd => "abd",
        Mnemonic::Abs => "abs",
        Mnemonic::Adalp => "adalp",
        Mnemonic::Adclb => "adclb",
        Mnemonic::Adclt => "adclt",
        Mnemonic::Add => "add",
        Mnemonic::Addha => "addha",
        Mnemonic::Addhnb => "addhnb",
        Mnemonic::Addhnt => "addhnt",
        Mnemonic::Addp => "addp",
        Mnemonic::Addpl => "addpl",
        Mnemonic::Addpt => "addpt",
        Mnemonic::Addqv => "addqv",
        Mnemonic::Addspl => "addspl",
        Mnemonic::Addsvl => "addsvl",
        Mnemonic::Addva => "addva",
        Mnemonic::Addvl => "addvl",
        Mnemonic::Adr => "adr",
        Mnemonic::Aes => "aes",
        Mnemonic::Aesd => "aesd",
        Mnemonic::Aese => "aese",
        Mnemonic::Aesimc => "aesimc",
        Mnemonic::Aesmc => "aesmc",
        Mnemonic::And => "and",
        Mnemonic::Andqv => "andqv",
        Mnemonic::Ands => "ands",
        Mnemonic::Andv => "andv",
        Mnemonic::Asr => "asr",
        Mnemonic::Asrd => "asrd",
        Mnemonic::Asrr => "asrr",
        Mnemonic::Bcax => "bcax",
        Mnemonic::Bdep => "bdep",
        Mnemonic::Bext => "bext",
        Mnemonic::Bf1cvt => "bf1cvt",
        Mnemonic::Bf1cvtl => "bf1cvtl",
        Mnemonic::Bf2cvt => "bf2cvt",
        Mnemonic::Bf2cvtl => "bf2cvtl",
        Mnemonic::Bfadd => "bfadd",
        Mnemonic::Bfclamp => "bfclamp",
        Mnemonic::Bfcvt => "bfcvt",
        Mnemonic::Bfcvtn => "bfcvtn",
        Mnemonic::Bfcvtnt => "bfcvtnt",
        Mnemonic::Bfdot => "bfdot",
        Mnemonic::Bfmax => "bfmax",
        Mnemonic::Bfmaxnm => "bfmaxnm",
        Mnemonic::Bfmin => "bfmin",
        Mnemonic::Bfminnm => "bfminnm",
        Mnemonic::Bfmla => "bfmla",
        Mnemonic::Bfmlal => "bfmlal",
        Mnemonic::Bfmlalb => "bfmlalb",
        Mnemonic::Bfmlalt => "bfmlalt",
        Mnemonic::Bfmls => "bfmls",
        Mnemonic::Bfmlsl => "bfmlsl",
        Mnemonic::Bfmmla => "bfmmla",
        Mnemonic::Bfmop4a => "bfmop4a",
        Mnemonic::Bfmop4s => "bfmop4s",
        Mnemonic::Bfmopa => "bfmopa",
        Mnemonic::Bfmops => "bfmops",
        Mnemonic::Bfmul => "bfmul",
        Mnemonic::Bfscale => "bfscale",
        Mnemonic::Bfsub => "bfsub",
        Mnemonic::Bftmopa => "bftmopa",
        Mnemonic::Bfvdot => "bfvdot",
        Mnemonic::Bgrp => "bgrp",
        Mnemonic::Bic => "bic",
        Mnemonic::Bics => "bics",
        Mnemonic::Bit => "bit",
        Mnemonic::Bmopa => "bmopa",
        Mnemonic::Bmops => "bmops",
        Mnemonic::Brk => "brk",
        Mnemonic::Brka => "brka",
        Mnemonic::Brkas => "brkas",
        Mnemonic::Brkb => "brkb",
        Mnemonic::Brkbs => "brkbs",
        Mnemonic::Brkn => "brkn",
        Mnemonic::Brkns => "brkns",
        Mnemonic::Brkp => "brkp",
        Mnemonic::Brkpa => "brkpa",
        Mnemonic::Brkpas => "brkpas",
        Mnemonic::Brkpb => "brkpb",
        Mnemonic::Brkpbs => "brkpbs",
        Mnemonic::Bsl => "bsl",
        Mnemonic::Bsl1n => "bsl1n",
        Mnemonic::Bsl2n => "bsl2n",
        Mnemonic::Cadd => "cadd",
        Mnemonic::Cdot => "cdot",
        Mnemonic::Clast => "clast",
        Mnemonic::Clasta => "clasta",
        Mnemonic::Clastb => "clastb",
        Mnemonic::Cls => "cls",
        Mnemonic::Clz => "clz",
        Mnemonic::Cmla => "cmla",
        Mnemonic::Cmp => "cmp",
        Mnemonic::Cmpeq => "cmpeq",
        Mnemonic::Cmpge => "cmpge",
        Mnemonic::Cmpgt => "cmpgt",
        Mnemonic::Cmphi => "cmphi",
        Mnemonic::Cmphs => "cmphs",
        Mnemonic::Cmple => "cmple",
        Mnemonic::Cmplo => "cmplo",
        Mnemonic::Cmpls => "cmpls",
        Mnemonic::Cmplt => "cmplt",
        Mnemonic::Cmpne => "cmpne",
        Mnemonic::Cnot => "cnot",
        Mnemonic::Cnt => "cnt",
        Mnemonic::Cntb => "cntb",
        Mnemonic::Cntd => "cntd",
        Mnemonic::Cnth => "cnth",
        Mnemonic::Cntp => "cntp",
        Mnemonic::Cntw => "cntw",
        Mnemonic::Compact => "compact",
        Mnemonic::Cpy => "cpy",
        Mnemonic::Cterm => "cterm",
        Mnemonic::Ctermeq => "ctermeq",
        Mnemonic::Ctermne => "ctermne",
        Mnemonic::Decb => "decb",
        Mnemonic::Decd => "decd",
        Mnemonic::Dech => "dech",
        Mnemonic::Decp => "decp",
        Mnemonic::Decw => "decw",
        Mnemonic::Dot => "dot",
        Mnemonic::Dup => "dup",
        Mnemonic::Dupm => "dupm",
        Mnemonic::Dupq => "dupq",
        Mnemonic::Eor => "eor",
        Mnemonic::Eor3 => "eor3",
        Mnemonic::Eorbt => "eorbt",
        Mnemonic::Eorqv => "eorqv",
        Mnemonic::Eors => "eors",
        Mnemonic::Eortb => "eortb",
        Mnemonic::Eorv => "eorv",
        Mnemonic::Expand => "expand",
        Mnemonic::Ext => "ext",
        Mnemonic::Extq => "extq",
        Mnemonic::Extract => "extract",
        Mnemonic::F1cvt => "f1cvt",
        Mnemonic::F1cvtl => "f1cvtl",
        Mnemonic::F2cvt => "f2cvt",
        Mnemonic::F2cvtl => "f2cvtl",
        Mnemonic::Fabd => "fabd",
        Mnemonic::Fabs => "fabs",
        Mnemonic::Facge => "facge",
        Mnemonic::Facgt => "facgt",
        Mnemonic::Fadd => "fadd",
        Mnemonic::Fadda => "fadda",
        Mnemonic::Faddp => "faddp",
        Mnemonic::Faddqv => "faddqv",
        Mnemonic::Faddv => "faddv",
        Mnemonic::Famax => "famax",
        Mnemonic::Famin => "famin",
        Mnemonic::Fcadd => "fcadd",
        Mnemonic::Fclamp => "fclamp",
        Mnemonic::Fcmeq => "fcmeq",
        Mnemonic::Fcmge => "fcmge",
        Mnemonic::Fcmgt => "fcmgt",
        Mnemonic::Fcmla => "fcmla",
        Mnemonic::Fcmle => "fcmle",
        Mnemonic::Fcmlt => "fcmlt",
        Mnemonic::Fcmne => "fcmne",
        Mnemonic::Fcmuo => "fcmuo",
        Mnemonic::Fcpy => "fcpy",
        Mnemonic::Fcvt => "fcvt",
        Mnemonic::Fcvtl => "fcvtl",
        Mnemonic::Fcvtlt => "fcvtlt",
        Mnemonic::Fcvtn => "fcvtn",
        Mnemonic::Fcvtnt => "fcvtnt",
        Mnemonic::Fcvtx => "fcvtx",
        Mnemonic::Fcvtxnt => "fcvtxnt",
        Mnemonic::Fcvtzs => "fcvtzs",
        Mnemonic::Fcvtzu => "fcvtzu",
        Mnemonic::Fdiv => "fdiv",
        Mnemonic::Fdivr => "fdivr",
        Mnemonic::Fdot => "fdot",
        Mnemonic::Fdup => "fdup",
        Mnemonic::Fexpa => "fexpa",
        Mnemonic::Firstp => "firstp",
        Mnemonic::Flogb => "flogb",
        Mnemonic::Fmad => "fmad",
        Mnemonic::Fmax => "fmax",
        Mnemonic::Fmaxnm => "fmaxnm",
        Mnemonic::Fmaxnmp => "fmaxnmp",
        Mnemonic::Fmaxnmqv => "fmaxnmqv",
        Mnemonic::Fmaxnmv => "fmaxnmv",
        Mnemonic::Fmaxp => "fmaxp",
        Mnemonic::Fmaxqv => "fmaxqv",
        Mnemonic::Fmaxv => "fmaxv",
        Mnemonic::Fmin => "fmin",
        Mnemonic::Fminnm => "fminnm",
        Mnemonic::Fminnmp => "fminnmp",
        Mnemonic::Fminnmqv => "fminnmqv",
        Mnemonic::Fminnmv => "fminnmv",
        Mnemonic::Fminp => "fminp",
        Mnemonic::Fminqv => "fminqv",
        Mnemonic::Fminv => "fminv",
        Mnemonic::Fmla => "fmla",
        Mnemonic::Fmlal => "fmlal",
        Mnemonic::Fmlalb => "fmlalb",
        Mnemonic::Fmlall => "fmlall",
        Mnemonic::Fmlallbb => "fmlallbb",
        _ => mnemonic_text_1(x),
    }
}

fn mnemonic_text_1(x: Mnemonic) -> (r: &'static str)
    ensures
        r == mnemonic_spelling_1(x),
{
    match x {
        Mnemonic::Fmlallbt => "fmlallbt",
        Mnemonic::Fmlalltb => "fmlalltb",
        Mnemonic::Fmlalltt => "fmlalltt",
        Mnemonic::Fmlalt => "fmlalt",
        Mnemonic::Fmls => "fmls",
        Mnemonic::Fmlsl => "fmlsl",
        Mnemonic::Fmlslb => "fmlslb",
        Mnemonic::Fmlslt => "fmlslt",
        Mnemonic::Fmmla => "fmmla",
        Mnemonic::Fmop4a => "fmop4a",
        Mnemonic::Fmop4s => "fmop4s",
        Mnemonic::Fmopa => "fmopa",
        Mnemonic::Fmops => "fmops",
        Mnemonic::Fmov => "fmov",
        Mnemonic::Fmsb => "fmsb",
        Mnemonic::Fmul => "fmul",
        Mnemonic::Fmulx => "fmulx",
        Mnemonic::Fneg => "fneg",
        Mnemonic::Fnmad => "fnmad",
        Mnemonic::Fnmla => "fnmla",
        Mnemonic::Fnmls => "fnmls",
        Mnemonic::Fnmsb => "fnmsb",
        Mnemonic::Frecpe => "frecpe",
        Mnemonic::Frecps => "frecps",
        Mnemonic::Frecpx => "frecpx",
        Mnemonic::Frinta => "frinta",
        Mnemonic::Frinti => "frinti",
        Mnemonic::Frintm => "frintm",
        Mnemonic::Frintn => "frintn",
        Mnemonic::Frintp => "frintp",
        Mnemonic::Frintx => "frintx",
        Mnemonic::Frintz => "frintz",
        Mnemonic::Frsqrte => "frsqrte",
        Mnemonic::Frsqrts => "frsqrts",
        Mnemonic::Fscale => "fscale",
        Mnemonic::Fsqrt => "fsqrt",
        Mnemonic::Fsub => "fsub",
        Mnemonic::Fsubr => "fsubr",
        Mnemonic::Ftmad => "ftmad",
        Mnemonic::Ftmopa => "ftmopa",
        Mnemonic::Ftsmul => "ftsmul",
        Mnemonic::Ftssel => "ftssel",
        Mnemonic::Fvdot => "fvdot",
        Mnemonic::Fvdotb => "fvdotb",
        Mnemonic::Fvdott => "fvdott",
        Mnemonic::Halving => "halving",
        Mnemonic::Histcnt => "histcnt",
        Mnemonic::Histseg => "histseg",
        Mnemonic::Inc => "inc",
        Mnemonic::Incb => "incb",
        Mnemonic::Incd => "incd",
        Mnemonic::Inch => "inch",
        Mnemonic::Incp => "incp",
        Mnemonic::Incw => "incw",
        Mnemonic::Index => "index",
        Mnemonic::Insr => "insr",
        Mnemonic::Last => "last",
        Mnemonic::Lasta => "lasta",
        Mnemonic::Lastb => "lastb",
        Mnemonic::Lastp => "lastp",
        Mnemonic::Ld1b => "ld1b",
        Mnemonic::Ld1d => "ld1d",
        Mnemonic::Ld1h => "ld1h",
        Mnemonic::Ld1q => "ld1q",
        Mnemonic::Ld1rb => "ld1rb",
        Mnemonic::Ld1rd => "ld1rd",
        Mnemonic::Ld1rh => "ld1rh",
        Mnemonic::Ld1rob => "ld1rob",
        Mnemonic::Ld1rod => "ld1rod",
        Mnemonic::Ld1roh => "ld1roh",
        Mnemonic::Ld1row => "ld1row",
        Mnemonic::Ld1rqb => "ld1rqb",
        Mnemonic::Ld1rqd => "ld1rqd",
        Mnemonic::Ld1rqh => "ld1rqh",
        Mnemonic::Ld1rqw => "ld1rqw",
        Mnemonic::Ld1rsb => "ld1rsb",
        Mnemonic::Ld1rsh => "ld1rsh",
        Mnemonic::Ld1rsw => "ld1rsw",
        Mnemonic::Ld1rw => "ld1rw",
        Mnemonic::Ld1sb => "ld1sb",
        Mnemonic::Ld1sh => "ld1sh",
        Mnemonic::Ld1sw => "ld1sw",
        Mnemonic::Ld1w => "ld1w",
        Mnemonic::Ld2b => "ld2b",
        Mnemonic::Ld2d => "ld2d",
        Mnemonic::Ld2h => "ld2h",
        Mnemonic::Ld2q => "ld2q",
        Mnemonic::Ld2w => "ld2w",
        Mnemonic::Ld3b => "ld3b",
        Mnemonic::Ld3d => "ld3d",
        Mnemonic::Ld3h => "ld3h",
        Mnemonic::Ld3q => "ld3q",
        Mnemonic::Ld3w => "ld3w",
        Mnemonic::Ld4b => "ld4b",
        Mnemonic::Ld4d => "ld4d",
        Mnemonic::Ld4h => "ld4h",
        Mnemonic::Ld4q => "ld4q",
        Mnemonic::Ld4w => "ld4w",
        Mnemonic::Ldff1b => "ldff1b",
        Mnemonic::Ldff1d => "ldff1d",
        Mnemonic::Ldff1h => "ldff1h",
        Mnemonic::Ldff1sb => "ldff1sb",
        Mnemonic::Ldff1sh => "ldff1sh",
        Mnemonic::Ldff1sw => "ldff1sw",
        Mnemonic::Ldff1w => "ldff1w",
        Mnemonic::Ldnf1b => "ldnf1b",
        Mnemonic::Ldnf1d => "ldnf1d",
        Mnemonic::Ldnf1h => "ldnf1h",
        Mnemonic::Ldnf1sb => "ldnf1sb",
        Mnemonic::Ldnf1sh => "ldnf1sh",
        Mnemonic::Ldnf1sw => "ldnf1sw",
        Mnemonic::Ldnf1w => "ldnf1w",
        Mnemonic::Ldnt1b => "ldnt1b",
        Mnemonic::Ldnt1d => "ldnt1d",
        Mnemonic::Ldnt1h => "ldnt1h",
        Mnemonic::Ldnt1sb => "ldnt1sb",
        Mnemonic::Ldnt1sh => "ldnt1sh",
        Mnemonic::Ldnt1sw => "ldnt1sw",
        Mnemonic::Ldnt1w => "ldnt1w",
        Mnemonic::Ldr => "ldr",
        Mnemonic::Lsl => "lsl",
        Mnemonic::Lslr => "lslr",
        Mnemonic::Lsr => "lsr",
        Mnemonic::Lsrr => "lsrr",
        Mnemonic::Luti2 => "luti2",
        Mnemonic::Luti4 => "luti4",
        Mnemonic::Luti6 => "luti6",
        Mnemonic::Mad => "mad",
        Mnemonic::Match => "match",
        Mnemonic::Matmul => "matmul",
        Mnemonic::Mla => "mla",
        Mnemonic::Mls => "mls",
        Mnemonic::Mov => "mov",
        Mnemonic::Mova => "mova",
        Mnemonic::Movaz => "movaz",
        Mnemonic::Movprfx => "movprfx",
        Mnemonic::Movs => "movs",
        Mnemonic::Movt => "movt",
        Mnemonic::Msb => "msb",
        Mnemonic::Mul => "mul",
        Mnemonic::Nand => "nand",
        Mnemonic::Nands => "nands",
        Mnemonic::Nbsl => "nbsl",
        Mnemonic::Neg => "neg",
        Mnemonic::Nmatch => "nmatch",
        Mnemonic::Nor => "nor",
        Mnemonic::Nors => "nors",
        Mnemonic::Not => "not",
        Mnemonic::Nots => "nots",
        Mnemonic::Orn => "orn",
        Mnemonic::Orns => "orns",
        Mnemonic::Orqv => "orqv",
        Mnemonic::Orr => "orr",
        Mnemonic::Orrs => "orrs",
        Mnemonic::Orv => "orv",
        Mnemonic::Pair => "pair",
        Mnemonic::Pfalse => "pfalse",
        Mnemonic::Pfirst => "pfirst",
        Mnemonic::Pmov => "pmov",
        Mnemonic::Pmul => "pmul",
        Mnemonic::Pmullb => "pmullb",
        Mnemonic::Pmullt => "pmullt",
        Mnemonic::Pnext => "pnext",
        Mnemonic::Pred => "pred",
        Mnemonic::Prfb => "prfb",
        Mnemonic::Prfd => "prfd",
        Mnemonic::Prfh => "prfh",
        Mnemonic::Prfw => "prfw",
        Mnemonic::Psel => "psel",
        Mnemonic::Ptest => "ptest",
        Mnemonic::Ptrue => "ptrue",
        Mnemonic::Ptrues => "ptrues",
        Mnemonic::Punpk => "punpk",
        Mnemonic::Punpkhi => "punpkhi",
        Mnemonic::Punpklo => "punpklo",
        Mnemonic::Raddhnb => "raddhnb",
        Mnemonic::Raddhnt => "raddhnt",
        Mnemonic::Rax1 => "rax1",
        Mnemonic::Rbit => "rbit",
        Mnemonic::Rdffr => "rdffr",
        Mnemonic::Rdffrs => "rdffrs",
        Mnemonic::Rdsvl => "rdsvl",
        Mnemonic::Rdvl => "rdvl",
        Mnemonic::Recip => "recip",
        Mnemonic::Rev => "rev",
        Mnemonic::Revb => "revb",
        Mnemonic::Revbhw => "revbhw",
        Mnemonic::Revd => "revd",
        Mnemonic::Revh => "revh",
        Mnemonic::Revw => "revw",
        Mnemonic::Rshrnb => "rshrnb",
        Mnemonic::Rshrnt => "rshrnt",
        Mnemonic::Rsubhnb => "rsubhnb",
        Mnemonic::Rsubhnt => "rsubhnt",
        Mnemonic::Saba => "saba",
        Mnemonic::Sabal => "sabal",
        Mnemonic::Sabalb => "sabalb",
        Mnemonic::Sabalt => "sabalt",
        Mnemonic::Sabd => "sabd",
        Mnemonic::Sabdlb => "sabdlb",
        _ => mnemonic_text_2(x),
    }
}

fn mnemonic_text_2(x: Mnemonic) -> (r: &'static str)
    ensures
        r == mnemonic_spelling_2(x),
{
    match x {
        Mnemonic::Sabdlt => "sabdlt",
        Mnemonic::Sadalp => "sadalp",
        Mnemonic::Saddlb => "saddlb",
        Mnemonic::Saddlbt => "saddlbt",
        Mnemonic::Saddlt => "saddlt",
        Mnemonic::Saddv => "saddv",
        Mnemonic::Saddwb => "saddwb",
        Mnemonic::Saddwt => "saddwt",
        Mnemonic::Sat => "sat",
        Mnemonic::Sbclb => "sbclb",
        Mnemonic::Sbclt => "sbclt",
        Mnemonic::Sclamp => "sclamp",
        Mnemonic::Scvtf => "scvtf",
        Mnemonic::Sdiv => "sdiv",
        Mnemonic::Sdivr => "sdivr",
        Mnemonic::Sdot => "sdot",
        Mnemonic::Sel => "sel",
        Mnemonic::Setffr => "setffr",
        Mnemonic::Shadd => "shadd",
        Mnemonic::Shift => "shift",
        Mnemonic::Shrnb => "shrnb",
        Mnemonic::Shrnt => "shrnt",
        Mnemonic::Shsub => "shsub",
        Mnemonic::Shsubr => "shsubr",
        Mnemonic::Sli => "sli",
        Mnemonic::Sm4e => "sm4e",
        Mnemonic::Sm4ekey => "sm4ekey",
        Mnemonic::Smax => "smax",
        Mnemonic::Smaxp => "smaxp",
        Mnemonic::Smaxqv => "smaxqv",
        Mnemonic::Smaxv => "smaxv",
        Mnemonic::Smin => "smin",
        Mnemonic::Sminp => "sminp",
        Mnemonic::Sminqv => "sminqv",
        Mnemonic::Sminv => "sminv",
        Mnemonic::Smlal => "smlal",
        Mnemonic::Smlalb => "smlalb",
        Mnemonic::Smlall => "smlall",
        Mnemonic::Smlalt => "smlalt",
        Mnemonic::Smlsl => "smlsl",
        Mnemonic::Smlslb => "smlslb",
        Mnemonic::Smlsll => "smlsll",
        Mnemonic::Smlslt => "smlslt",
        Mnemonic::Smmla => "smmla",
        Mnemonic::Smop4a => "smop4a",
        Mnemonic::Smop4s => "smop4s",
        Mnemonic::Smopa => "smopa",
        Mnemonic::Smops => "smops",
        Mnemonic::Smulh => "smulh",
        Mnemonic::Smullb => "smullb",
        Mnemonic::Smullt => "smullt",
        Mnemonic::Splice => "splice",
        Mnemonic::Sq => "sq",
        Mnemonic::Sqabs => "sqabs",
        Mnemonic::Sqadd => "sqadd",
        Mnemonic::Sqcadd => "sqcadd",
        Mnemonic::Sqcvt => "sqcvt",
        Mnemonic::Sqcvtn => "sqcvtn",
        Mnemonic::Sqcvtu => "sqcvtu",
        Mnemonic::Sqcvtun => "sqcvtun",
        Mnemonic::Sqdecb => "sqdecb",
        Mnemonic::Sqdecd => "sqdecd",
        Mnemonic::Sqdech => "sqdech",
        Mnemonic::Sqdecp => "sqdecp",
        Mnemonic::Sqdecw => "sqdecw",
        Mnemonic::Sqdmlal => "sqdmlal",
        Mnemonic::Sqdmlalb => "sqdmlalb",
        Mnemonic::Sqdmlalbt => "sqdmlalbt",
        Mnemonic::Sqdmlalt => "sqdmlalt",
        Mnemonic::Sqdmlslb => "sqdmlslb",
        Mnemonic::Sqdmlslbt => "sqdmlslbt",
        Mnemonic::Sqdmlslt => "sqdmlslt",
        Mnemonic::Sqdmul => "sqdmul",
        Mnemonic::Sqdmulh => "sqdmulh",
        Mnemonic::Sqdmullb => "sqdmullb",
        Mnemonic::Sqdmullt => "sqdmullt",
        Mnemonic::Sqincb => "sqincb",
        Mnemonic::Sqincd => "sqincd",
        Mnemonic::Sqinch => "sqinch",
        Mnemonic::Sqincp => "sqincp",
        Mnemonic::Sqincw => "sqincw",
        Mnemonic::Sqneg => "sqneg",
        Mnemonic::Sqrdcmlah => "sqrdcmlah",
        Mnemonic::Sqrdmlah => "sqrdmlah",
        Mnemonic::Sqrdmlsh => "sqrdmlsh",
        Mnemonic::Sqrdmulh => "sqrdmulh",
        Mnemonic::Sqrshl => "sqrshl",
        Mnemonic::Sqrshlr => "sqrshlr",
        Mnemonic::Sqrshr => "sqrshr",
        Mnemonic::Sqrshrn => "sqrshrn",
        Mnemonic::Sqrshrnb => "sqrshrnb",
        Mnemonic::Sqrshrnt => "sqrshrnt",
        Mnemonic::Sqrshru => "sqrshru",
        Mnemonic::Sqrshrun => "sqrshrun",
        Mnemonic::Sqrshrunb => "sqrshrunb",
        Mnemonic::Sqrshrunt => "sqrshrunt",
        Mnemonic::Sqshl => "sqshl",
        Mnemonic::Sqshlr => "sqshlr",
        Mnemonic::Sqshlu => "sqshlu",
        Mnemonic::Sqshrnb => "sqshrnb",
        Mnemonic::Sqshrnt => "sqshrnt",
        Mnemonic::Sqshrunb => "sqshrunb",
        Mnemonic::Sqshrunt => "sqshrunt",
        Mnemonic::Sqsub => "sqsub",
        Mnemonic::Sqsubr => "sqsubr",
        Mnemonic::Sqxtnb => "sqxtnb",
        Mnemonic::Sqxtnt => "sqxtnt",
        Mnemonic::Sqxtunb => "sqxtunb",
        Mnemonic::Sqxtunt => "sqxtunt",
        Mnemonic::Srhadd => "srhadd",
        Mnemonic::Sri => "sri",
        Mnemonic::Srshl => "srshl",
        Mnemonic::Srshlr => "srshlr",
        Mnemonic::Srshr => "srshr",
        Mnemonic::Srsra => "srsra",
        Mnemonic::Sshllb => "sshllb",
        Mnemonic::Sshllt => "sshllt",
        Mnemonic::Ssra => "ssra",
        Mnemonic::Ssublb => "ssublb",
        Mnemonic::Ssublbt => "ssublbt",
        Mnemonic::Ssublt => "ssublt",
        Mnemonic::Ssubltb => "ssubltb",
        Mnemonic::Ssubwb => "ssubwb",
        Mnemonic::Ssubwt => "ssubwt",
        Mnemonic::St1b => "st1b",
        Mnemonic::St1d => "st1d",
        Mnemonic::St1h => "st1h",
        Mnemonic::St1q => "st1q",
        Mnemonic::St1w => "st1w",
        Mnemonic::St2b => "st2b",
        Mnemonic::St2d => "st2d",
        Mnemonic::St2h => "st2h",
        Mnemonic::St2q => "st2q",
        Mnemonic::St2w => "st2w",
        Mnemonic::St3b => "st3b",
        Mnemonic::St3d => "st3d",
        Mnemonic::St3h => "st3h",
        Mnemonic::St3q => "st3q",
        Mnemonic::St3w => "st3w",
        Mnemonic::St4b => "st4b",
        Mnemonic::St4d => "st4d",
        Mnemonic::St4h => "st4h",
        Mnemonic::St4q => "st4q",
        Mnemonic::St4w => "st4w",
        Mnemonic::Stmopa => "stmopa",
        Mnemonic::Stnt1b => "stnt1b",
        Mnemonic::Stnt1d => "stnt1d",
        Mnemonic::Stnt1h => "stnt1h",
        Mnemonic::Stnt1w => "stnt1w",
        Mnemonic::Str => "str",
        Mnemonic::Sub => "sub",
        Mnemonic::Subhnb => "subhnb",
        Mnemonic::Subhnt => "subhnt",
        Mnemonic::Subpt => "subpt",
        Mnemonic::Subr => "subr",
        Mnemonic::Sudot => "sudot",
        Mnemonic::Sumlall => "sumlall",
        Mnemonic::Sumop4a => "sumop4a",
        Mnemonic::Sumop4s => "sumop4s",
        Mnemonic::Sumopa => "sumopa",
        Mnemonic::Sumops => "sumops",
        Mnemonic::Sunpk => "sunpk",
        Mnemonic::Sunpkhi => "sunpkhi",
        Mnemonic::Sunpklo => "sunpklo",
        Mnemonic::Suqadd => "suqadd",
        Mnemonic::Sutmopa => "sutmopa",
        Mnemonic::Suvdot => "suvdot",
        Mnemonic::Svdot => "svdot",
        Mnemonic::Sxtb => "sxtb",
        Mnemonic::Sxth => "sxth",
        Mnemonic::Sxtw => "sxtw",
        Mnemonic::Tbl => "tbl",
        Mnemonic::Tbl2 => "tbl2",
        Mnemonic::Tblq => "tblq",
        Mnemonic::Tbx => "tbx",
        Mnemonic::Tbxq => "tbxq",
        Mnemonic::Trn1 => "trn1",
        Mnemonic::Trn2 => "trn2",
        Mnemonic::Uaba => "uaba",
        Mnemonic::Uabal => "uabal",
        Mnemonic::Uabalb => "uabalb",
        Mnemonic::Uabalt => "uabalt",
        Mnemonic::Uabd => "uabd",
        Mnemonic::Uabdlb => "uabdlb",
        Mnemonic::Uabdlt => "uabdlt",
        Mnemonic::Uadalp => "uadalp",
        Mnemonic::Uaddlb => "uaddlb",
        Mnemonic::Uaddlt => "uaddlt",
        Mnemonic::Uaddv => "uaddv",
        Mnemonic::Uaddwb => "uaddwb",
        Mnemonic::Uaddwt => "uaddwt",
        Mnemonic::Uclamp => "uclamp",
        Mnemonic::Ucvtf => "ucvtf",
        Mnemonic::Udiv => "udiv",
        Mnemonic::Udivr => "udivr",
        Mnemonic::Udot => "udot",
        Mnemonic::Uhadd => "uhadd",
        Mnemonic::Uhsub => "uhsub",
        Mnemonic::Uhsubr => "uhsubr",
        Mnemonic::Umax => "umax",
        _ => mnemonic_text_3(x),
    }
}

fn mnemonic_text_3(x: Mnemonic) -> (r: &'static str)
    ensures
        r == mnemonic_spelling_3(x),
{
    match x {
        Mnemonic::Umaxp => "umaxp",
        Mnemonic::Umaxqv => "umaxqv",
        Mnemonic::Umaxv => "umaxv",
        Mnemonic::Umin => "umin",
        Mnemonic::Uminp => "uminp",
        Mnemonic::Uminqv => "uminqv",
        Mnemonic::Uminv => "uminv",
        Mnemonic::Umlal => "umlal",
        Mnemonic::Umlalb => "umlalb",
        Mnemonic::Umlall => "umlall",
        Mnemonic::Umlalt => "umlalt",
        Mnemonic::Umlsl => "umlsl",
        Mnemonic::Umlslb => "umlslb",
        Mnemonic::Umlsll => "umlsll",
        Mnemonic::Umlslt => "umlslt",
        Mnemonic::Ummla => "ummla",
        Mnemonic::Umop4a => "umop4a",
        Mnemonic::Umop4s => "umop4s",
        Mnemonic::Umopa => "umopa",
        Mnemonic::Umops => "umops",
        Mnemonic::Umulh => "umulh",
        Mnemonic::Umullb => "umullb",
        Mnemonic::Umullt => "umullt",
        Mnemonic::Unpk => "unpk",
        Mnemonic::Uqadd => "uqadd",
        Mnemonic::Uqcvt => "uqcvt",
        Mnemonic::Uqcvtn => "uqcvtn",
        Mnemonic::Uqdecb => "uqdecb",
        Mnemonic::Uqdecd => "uqdecd",
        Mnemonic::Uqdech => "uqdech",
        Mnemonic::Uqdecp => "uqdecp",
        Mnemonic::Uqdecw => "uqdecw",
        Mnemonic::Uqincb => "uqincb",
        Mnemonic::Uqincd => "uqincd",
        Mnemonic::Uqinch => "uqinch",
        Mnemonic::Uqincp => "uqincp",
        Mnemonic::Uqincw => "uqincw",
        Mnemonic::Uqrshl => "uqrshl",
        Mnemonic::Uqrshlr => "uqrshlr",
        Mnemonic::Uqrshr => "uqrshr",
        Mnemonic::Uqrshrn => "uqrshrn",
        Mnemonic::Uqrshrnb => "uqrshrnb",
        Mnemonic::Uqrshrnt => "uqrshrnt",
        Mnemonic::Uqshl => "uqshl",
        Mnemonic::Uqshlr => "uqshlr",
        Mnemonic::Uqshrnb => "uqshrnb",
        Mnemonic::Uqshrnt => "uqshrnt",
        Mnemonic::Uqsub => "uqsub",
        Mnemonic::Uqsubr => "uqsubr",
        Mnemonic::Uqxtnb => "uqxtnb",
        Mnemonic::Uqxtnt => "uqxtnt",
        Mnemonic::Urecpe => "urecpe",
        Mnemonic::Urhadd => "urhadd",
        Mnemonic::Urshl => "urshl",
        Mnemonic::Urshlr => "urshlr",
        Mnemonic::Urshr => "urshr",
        Mnemonic::Ursqrte => "ursqrte",
        Mnemonic::Ursra => "ursra",
        Mnemonic::Usdot => "usdot",
        Mnemonic::Ushllb => "ushllb",
        Mnemonic::Ushllt => "ushllt",
        Mnemonic::Usmlall => "usmlall",
        Mnemonic::Usmmla => "usmmla",
        Mnemonic::Usmop4a => "usmop4a",
        Mnemonic::Usmop4s => "usmop4s",
        Mnemonic::Usmopa => "usmopa",
        Mnemonic::Usmops => "usmops",
        Mnemonic::Usqadd => "usqadd",
        Mnemonic::Usra => "usra",
        Mnemonic::Ustmopa => "ustmopa",
        Mnemonic::Usublb => "usublb",
        Mnemonic::Usublt => "usublt",
        Mnemonic::Usubwb => "usubwb",
        Mnemonic::Usubwt => "usubwt",
        Mnemonic::Usvdot => "usvdot",
        Mnemonic::Utmopa => "utmopa",
        Mnemonic::Uunpk => "uunpk",
        Mnemonic::Uunpkhi => "uunpkhi",
        Mnemonic::Uunpklo => "uunpklo",
        Mnemonic::Uvdot => "uvdot",
        Mnemonic::Uxtb => "uxtb",
        Mnemonic::Uxth => "uxth",
        Mnemonic::Uxtw => "uxtw",
        Mnemonic::Uzp => "uzp",
        Mnemonic::Uzp1 => "uzp1",
        Mnemonic::Uzp2 => "uzp2",
        Mnemonic::Uzpq1 => "uzpq1",
        Mnemonic::Uzpq2 => "uzpq2",
        Mnemonic::While => "while",
        Mnemonic::Whilege => "whilege",
        Mnemonic::Whilegt => "whilegt",
        Mnemonic::Whilehi => "whilehi",
        Mnemonic::Whilehs => "whilehs",
        Mnemonic::Whilele => "whilele",
        Mnemonic::Whilelo => "whilelo",
        Mnemonic::Whilels => "whilels",
        Mnemonic::Whilelt => "whilelt",
        Mnemonic::Whilerw => "whilerw",
        Mnemonic::Whilewr => "whilewr",
        Mnemonic::Wrffr => "wrffr",
        Mnemonic::Xar => "xar",
        Mnemonic::Zero => "zero",
        Mnemonic::Zip => "zip",
        Mnemonic::Zip1 => "zip1",
        Mnemonic::Zip2 => "zip2",
        Mnemonic::Zipq => "zipq",
        Mnemonic::Zipq1 => "zipq1",
        Mnemonic::Zipq2 => "zipq2",
        _ => "invalid",
    }
}

} // verus!
