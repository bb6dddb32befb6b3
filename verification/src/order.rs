//! The order of the groups is prime.
//!
//! Seven is a witness for it. The lemmas below compute the powers of seven
//! that [`witness`] asks for, by squaring and multiplying: every `let`
//! gives the next power, and the lemma called beside it checks it. The
//! last lemmas draw the conclusions: the order is prime, and every residue
//! but zero has an inverse modulo the order.
use crate::factors::lemma_prime_10177;
use crate::factors::lemma_prime_11;
use crate::factors::lemma_prime_125527;
use crate::factors::lemma_prime_19;
use crate::factors::lemma_prime_2508409;
use crate::factors::lemma_prime_2529403;
use crate::factors::lemma_prime_254760293;
use crate::factors::lemma_prime_2;
use crate::factors::lemma_prime_3;
use crate::factors::lemma_prime_52437899;
use crate::factors::lemma_prime_859267;
use crate::factors::lemma_prime_906349;
use crate::field::modulus;
use crate::primality::has_inverse;
use crate::primality::is_prime;
use crate::primality::lemma_mpow_double;
use crate::primality::lemma_mpow_double_next;
use crate::primality::lemma_mpow_first;
use crate::primality::lemma_mpow_mul;
use crate::primality::lemma_witness_inverses;
use crate::primality::lemma_witness_prime;
use crate::primality::lemma_witness_push;
use crate::primality::mpow;
use crate::primality::product;
use crate::primality::witness;
use vstd::prelude::*;

verus! {

/// A power of seven modulo the order.
proof fn lemma_order_power_1()
    ensures
        mpow(0x7int, 0x69008000000080000000nat, modulus()) == 0x36fb34ca1cf1bdf3cfcae97d3d3292f63e19c2f2cf2ab065378f4171e23ad3a2int,
{
    let n = 0x73eda753299d7d483339d80809a1d80553bda402fffe5bfeffffffff00000001int;
    let g = 7int;
    let b1 = 0x7int;
    lemma_mpow_first(b1, n);
    let s1_1 = 0x31int;
    let v1_1 = 0x157int;
    let e1_1 = lemma_mpow_double_next(b1, n, 1nat, b1, s1_1, v1_1);
    let v1_2 = 0x1cb91int;
    let e1_2 = lemma_mpow_double(b1, n, e1_1, v1_1, v1_2);
    let s1_3 = 0x339014821int;
    let v1_3 = 0x168f08f8e7int;
    let e1_3 = lemma_mpow_double_next(b1, n, e1_2, v1_2, s1_3, v1_3);
    let v1_4 = 0x1fce575ce1692706071int;
    let e1_4 = lemma_mpow_double(b1, n, e1_3, v1_3, v1_4);
    let v1_5 = 0x3f39f7935e27f9685fd64ab94cec16b34f1e1int;
    let e1_5 = lemma_mpow_double(b1, n, e1_4, v1_4, v1_5);
    let s1_6 = 0x4dbe2b6749917d902165e559aa047cd6c237ebfa85c54a73c5dc3fc7c23d463eint;
    let v1_6 = 0x507c92865c8479d01ce1e5537f9809ca0090e3cda86b992e6905be7a4facebaeint;
    let e1_6 = lemma_mpow_double_next(b1, n, e1_5, v1_5, s1_6, v1_6);
    let v1_7 = 0x5b96ce5a7557c97ec9db8919389fd75395d82acb67a181600c8b0dda61b8b72bint;
    let e1_7 = lemma_mpow_double(b1, n, e1_6, v1_6, v1_7);
    let v1_8 = 0x18d524e57eadb15da03da763d22176fbaca76cd2e46b1fc5b2a37d03f5d5bbebint;
    let e1_8 = lemma_mpow_double(b1, n, e1_7, v1_7, v1_8);
    let v1_9 = 0x12e211f7b84956c15810272bf3fada7582a5e338b46857445cbd6cfd9574d81aint;
    let e1_9 = lemma_mpow_double(b1, n, e1_8, v1_8, v1_9);
    let v1_10 = 0x657dfa94cc0d81ebf5dc77b9cfe7f19e6579bb9fc87f46e1950cbe02345597f5int;
    let e1_10 = lemma_mpow_double(b1, n, e1_9, v1_9, v1_10);
    let v1_11 = 0x2767c79505ec9e61aeb652cf2785e20cb505d912547427eb70e523ff66b8b2c4int;
    let e1_11 = lemma_mpow_double(b1, n, e1_10, v1_10, v1_11);
    let v1_12 = 0x9118bb520e650553c6e920d46bcb79616e38e3df8d0326d5cb206d61186ce62int;
    let e1_12 = lemma_mpow_double(b1, n, e1_11, v1_11, v1_12);
    let v1_13 = 0x8722ea9b0942767e0cf0af0d4bdfdb9ed00443be1e4ef9d9c26f8451fbe4390int;
    let e1_13 = lemma_mpow_double(b1, n, e1_12, v1_12, v1_13);
    let v1_14 = 0x9fd170b13d84c08d206cd32c1daa498dfe15f16b2f4117cf986f9c1481fd486int;
    let e1_14 = lemma_mpow_double(b1, n, e1_13, v1_13, v1_14);
    let s1_15 = 0x2f13da8b857587a0ab47695c47e9427f1dc49c2d14664661a16bd9e4c49986b9int;
    let v1_15 = 0x61afab2a52fbbad448803175e41d216f28e4fd358ecf34ad69f2f5436032af0dint;
    let e1_15 = lemma_mpow_double_next(b1, n, e1_14, v1_14, s1_15, v1_15);
    let v1_16 = 0x3c7ab2e42e298a52a42aad215d2cc3b3905cd6b4764052b7c9f0ad86cdabaab3int;
    let e1_16 = lemma_mpow_double(b1, n, e1_15, v1_15, v1_16);
    let v1_17 = 0x4877e26876504ce8e3f937c70d1a8f7cfcdc448704f680d82343a30e1b131557int;
    let e1_17 = lemma_mpow_double(b1, n, e1_16, v1_16, v1_17);
    let v1_18 = 0x1f21515b1ff125e0931b71fd3e88015d3495601fd2d4c3a262a4f9753a1a8c42int;
    let e1_18 = lemma_mpow_double(b1, n, e1_17, v1_17, v1_18);
    let v1_19 = 0x6801aa4a3002337345e9be42524b87447d77f2d7cdc08b595bf6eb55cde8c697int;
    let e1_19 = lemma_mpow_double(b1, n, e1_18, v1_18, v1_19);
    let v1_20 = 0x4621915574d896c5e9420a00fc8f5819fa06c21c197f83405294d20d9d4e8a91int;
    let e1_20 = lemma_mpow_double(b1, n, e1_19, v1_19, v1_20);
    let v1_21 = 0x184368588b04122d989530ffd0d67efd2452aa0da3fd01825264011198cdb190int;
    let e1_21 = lemma_mpow_double(b1, n, e1_20, v1_20, v1_21);
    let v1_22 = 0x31aa3e836ec2dd091300825a0d523f11d3172b3fd3ce167c75b0824f03dc474bint;
    let e1_22 = lemma_mpow_double(b1, n, e1_21, v1_21, v1_22);
    let v1_23 = 0x697fbd0ac9816da992734123a9511c733fe7b22a0aab9054513ed2c88d0cbe3cint;
    let e1_23 = lemma_mpow_double(b1, n, e1_22, v1_22, v1_23);
    let v1_24 = 0x151c6726ae58cabdf7e1bd960e3fb7e57e159dc5a5c9ddc00e5a14fad885c37bint;
    let e1_24 = lemma_mpow_double(b1, n, e1_23, v1_23, v1_24);
    let v1_25 = 0x53acea4e2dd88feea1bfeac0f99ed50a7ec5b46695ca1ccf5c8b62bbdc88f2c1int;
    let e1_25 = lemma_mpow_double(b1, n, e1_24, v1_24, v1_25);
    let v1_26 = 0x48216bc476fa0286465edb3a34d1468a7badcbb2259dfda67dbee3f7e46eb8a9int;
    let e1_26 = lemma_mpow_double(b1, n, e1_25, v1_25, v1_26);
    let v1_27 = 0x487174a1b2861d429c08f57bea4ba96168bbf16020686af47fcd0859aa9f4ecaint;
    let e1_27 = lemma_mpow_double(b1, n, e1_26, v1_26, v1_27);
    let v1_28 = 0x32125f8e3226ee4d5e5877f118a39f97da86516f12d268d890899e85ed001cbfint;
    let e1_28 = lemma_mpow_double(b1, n, e1_27, v1_27, v1_28);
    let v1_29 = 0x61c0ca58f65595ce320e4a4c58c04b7938aeabcdbf6a72bc3b4261c46b3e85f4int;
    let e1_29 = lemma_mpow_double(b1, n, e1_28, v1_28, v1_29);
    let v1_30 = 0x44e90607430bda1b3bb4c5632630a0d4ebd9b9c08e92bd9d5aae1b62e8242ee4int;
    let e1_30 = lemma_mpow_double(b1, n, e1_29, v1_29, v1_30);
    let v1_31 = 0x6f12506b6627dd5a53a60489ee91acf6b736326b1c6cc0d6d65c9f2bd541aa57int;
    let e1_31 = lemma_mpow_double(b1, n, e1_30, v1_30, v1_31);
    let v1_32 = 0x312852023eb3c473c1a6d17510802d12ce29c25c411323cd36afded052e0386bint;
    let e1_32 = lemma_mpow_double(b1, n, e1_31, v1_31, v1_32);
    let v1_33 = 0x195ec996f7997952f05a5fdf5cf15dd5860f05a82756beb66607c48742bad843int;
    let e1_33 = lemma_mpow_double(b1, n, e1_32, v1_32, v1_33);
    let v1_34 = 0x523ad07af09eeef5c7ff7e4fb85e265be5c37d211ce8b5d40298863d69415b1fint;
    let e1_34 = lemma_mpow_double(b1, n, e1_33, v1_33, v1_34);
    let v1_35 = 0x1bf07cd11e009bffac9e3cac30bf4af35b97a8966b2d6272e43477999f44c1e1int;
    let e1_35 = lemma_mpow_double(b1, n, e1_34, v1_34, v1_35);
    let v1_36 = 0x1f90714a0f489edd082268b01972c98a4c90f722e196358a038969e2aec9b894int;
    let e1_36 = lemma_mpow_double(b1, n, e1_35, v1_35, v1_36);
    let v1_37 = 0x3704276ad36327715ae112e31f6e8790b4ea33451a93830be970e763eb519005int;
    let e1_37 = lemma_mpow_double(b1, n, e1_36, v1_36, v1_37);
    let v1_38 = 0x90a7dc8d48156551399ce99d0b04801a1044d69016fad6dee3703d9b8f0d28eint;
    let e1_38 = lemma_mpow_double(b1, n, e1_37, v1_37, v1_38);
    let v1_39 = 0x158f84667e3bd9ce79b85ebe10311d4df71e1fb1382fa38d6e957dcdfa21cb91int;
    let e1_39 = lemma_mpow_double(b1, n, e1_38, v1_38, v1_39);
    let v1_40 = 0x16b4830c9f3015a9a8a0227a8f0d0c63235dcfb333526e0745ff43620d226003int;
    let e1_40 = lemma_mpow_double(b1, n, e1_39, v1_39, v1_40);
    let v1_41 = 0x7a9d5859e01411af7c4fe9f16d1717b97b9f60e33e72e970309d15c8656bd24int;
    let e1_41 = lemma_mpow_double(b1, n, e1_40, v1_40, v1_41);
    let v1_42 = 0x414f17d2b6078d4e5e276be3a840432f9a5b22f5856bf9c70fb847654fb0eb1fint;
    let e1_42 = lemma_mpow_double(b1, n, e1_41, v1_41, v1_42);
    let v1_43 = 0xdf76e6559ff32f498063f2797c332ae318a5caba5367483b8ef97a889065cc9int;
    let e1_43 = lemma_mpow_double(b1, n, e1_42, v1_42, v1_43);
    let v1_44 = 0x21ca9c35657b5d705602db4ee6509f23df77f8f72d1ba37be7b3d107aae3042fint;
    let e1_44 = lemma_mpow_double(b1, n, e1_43, v1_43, v1_44);
    let v1_45 = 0x722faae5745e725cf02785153a3217ff7050eefe46f3b6e9a2b51ecb7478b97aint;
    let e1_45 = lemma_mpow_double(b1, n, e1_44, v1_44, v1_45);
    let v1_46 = 0x3c652573c0ea3df443bfea691b43864e4f71ee934eba2561afe316a96ff03411int;
    let e1_46 = lemma_mpow_double(b1, n, e1_45, v1_45, v1_46);
    let s1_47 = 0x54676526bd7faa5fe10e059208d35a6f03a652c0b46fdace297635b158165ee5int;
    let v1_47 = 0xb2f7f6f5e6a36362740eed60d9e40ee76d80f35ef172fa8223b77de689c983eint;
    let e1_47 = lemma_mpow_double_next(b1, n, e1_46, v1_46, s1_47, v1_47);
    let v1_48 = 0x2254c16be8b9ec325ea8dafb5930b66901d5114f7d666e34964862dda73422b6int;
    let e1_48 = lemma_mpow_double(b1, n, e1_47, v1_47, v1_48);
    let v1_49 = 0x5afdff7b7d66ccd14204c6458609aca7181a06e8b9afb10640d88724ccabfb6cint;
    let e1_49 = lemma_mpow_double(b1, n, e1_48, v1_48, v1_49);
    let v1_50 = 0x57a0ceeffd2223fb6157a4553d8b674558650ac6168235bb99f033c632f5f6e6int;
    let e1_50 = lemma_mpow_double(b1, n, e1_49, v1_49, v1_50);
    let v1_51 = 0x4a20085d22390bf7224a416dbeba68931282e319838b5038950fb6cf2758de17int;
    let e1_51 = lemma_mpow_double(b1, n, e1_50, v1_50, v1_51);
    let v1_52 = 0x50380a4f69a9a3d9f155b75750b4e59de995cb7a483073ba0c294d126fe27318int;
    let e1_52 = lemma_mpow_double(b1, n, e1_51, v1_51, v1_52);
    let v1_53 = 0x6912485cfdd18f6092756fd38a9a09f544cdb961af50a8be39279bfd476a9e08int;
    let e1_53 = lemma_mpow_double(b1, n, e1_52, v1_52, v1_53);
    let v1_54 = 0x38c1f5326280c4e3463e3b7aeecd593f0e32ce42dc53452fe37ad51abbfac7baint;
    let e1_54 = lemma_mpow_double(b1, n, e1_53, v1_53, v1_54);
    let v1_55 = 0x44c36111c77ba2195409a5713a180c204ddff952aec8752d62cc27d06b4c80c9int;
    let e1_55 = lemma_mpow_double(b1, n, e1_54, v1_54, v1_55);
    let v1_56 = 0x67496530b86e6598749ad1eb2b5a4b3342f28c785b5ee5bca5bca01513e675beint;
    let e1_56 = lemma_mpow_double(b1, n, e1_55, v1_55, v1_56);
    let v1_57 = 0x16cfd78056b974d74fa388a427b04b1003c71cfbae5707bdaf221452f242cc40int;
    let e1_57 = lemma_mpow_double(b1, n, e1_56, v1_56, v1_57);
    let v1_58 = 0x62d3cf56a66999304cd44ff3c92d138902d6b682bcd11b91c325bd3102d35916int;
    let e1_58 = lemma_mpow_double(b1, n, e1_57, v1_57, v1_58);
    let v1_59 = 0xce68cab8d22f317ea8358bb41b22e94f27a1053c8d2a98d3dda3298fb3b014cint;
    let e1_59 = lemma_mpow_double(b1, n, e1_58, v1_58, v1_59);
    let v1_60 = 0x50d4b7a032de74ef01a9de8aabc865db5e5e9d41dd5228b25423423a611c8715int;
    let e1_60 = lemma_mpow_double(b1, n, e1_59, v1_59, v1_60);
    let v1_61 = 0x2479e8b13acfb491476969cd2d3c6f555388d54d71a2a05bf3c8608dee4c5c95int;
    let e1_61 = lemma_mpow_double(b1, n, e1_60, v1_60, v1_61);
    let v1_62 = 0x5a5249df8182d1d69f88b4d8ae1fbf9f99cb8c1a893fb15e299781d181a67330int;
    let e1_62 = lemma_mpow_double(b1, n, e1_61, v1_61, v1_62);
    let v1_63 = 0x1b9715f207a6329101e55d46b904110bc6a33524f56c1a27c7f446893578d471int;
    let e1_63 = lemma_mpow_double(b1, n, e1_62, v1_62, v1_63);
    let v1_64 = 0x2478e13eef8d49d437bfc35897a94ee9270a636ee34731a6fdaf2302c4147a5dint;
    let e1_64 = lemma_mpow_double(b1, n, e1_63, v1_63, v1_64);
    let v1_65 = 0x5f2cacebcfbd04a8f9e6306f29718cae549bba71111b397a5ffede49cbb7045int;
    let e1_65 = lemma_mpow_double(b1, n, e1_64, v1_64, v1_65);
    let v1_66 = 0x257f7cff8c1882b5b490abab1de3cbb6007250082210c908758acd62be23dc00int;
    let e1_66 = lemma_mpow_double(b1, n, e1_65, v1_65, v1_66);
    let v1_67 = 0xa4368f6d4e7f8a0e35500e003398ea58a6944b9e4a1ab49ce5f1f23edf5dee6int;
    let e1_67 = lemma_mpow_double(b1, n, e1_66, v1_66, v1_67);
    let v1_68 = 0x488f77ac208e44c3bc31b5b9c75e521f214d618d2cbb16c36705f5a60281f63int;
    let e1_68 = lemma_mpow_double(b1, n, e1_67, v1_67, v1_68);
    let v1_69 = 0x27cd13b2867fc2c3aef5cb17a6b892327ad6c58bec95a734bee326b3a0c2395fint;
    let e1_69 = lemma_mpow_double(b1, n, e1_68, v1_68, v1_69);
    let v1_70 = 0xb11bcbca6ffd7b4f44fd5504c11de84d02197143bd994dd5a3bfd9be0c934e5int;
    let e1_70 = lemma_mpow_double(b1, n, e1_69, v1_69, v1_70);
    let v1_71 = 0x32d82b76460cfbff40c76b3bb52e7292fdc03c54bcaa13f24ccb50ce7b7dce19int;
    let e1_71 = lemma_mpow_double(b1, n, e1_70, v1_70, v1_71);
    let v1_72 = 0x7196ed588c35ef4634ce392cd67c45367a1450738fd99b864d61d6e2b3bfec42int;
    let e1_72 = lemma_mpow_double(b1, n, e1_71, v1_71, v1_72);
    let v1_73 = 0x630a2a98e7aedc3f31502cdbe95a9d38f69e61be6da11a14d20fc56deff037e4int;
    let e1_73 = lemma_mpow_double(b1, n, e1_72, v1_72, v1_73);
    let v1_74 = 0x5020644b587f362ae27b9a699c4b775521cbc60527c59f6f823f5d8059c734d0int;
    let e1_74 = lemma_mpow_double(b1, n, e1_73, v1_73, v1_74);
    let v1_75 = 0x53ac2d357f172cfb2baf338d17107db8e22ae05f5f1e3f35a4bfe85ea7b49eeeint;
    let e1_75 = lemma_mpow_double(b1, n, e1_74, v1_74, v1_75);
    let v1_76 = 0xc5ed8193aef84831aaf1e15f88feb89fe9777f44ad9f1920dc7180de825d875int;
    let e1_76 = lemma_mpow_double(b1, n, e1_75, v1_75, v1_76);
    let v1_77 = 0x1f3ba0a773c8c66664d8f67a789e7c866cb87c93569d57c42f6ec10c632a4644int;
    let e1_77 = lemma_mpow_double(b1, n, e1_76, v1_76, v1_77);
    let v1_78 = 0x36fb34ca1cf1bdf3cfcae97d3d3292f63e19c2f2cf2ab065378f4171e23ad3a2int;
    let e1_78 = lemma_mpow_double(b1, n, e1_77, v1_77, v1_78);
}

/// A power of seven modulo the order.
proof fn lemma_order_power_2()
    ensures
        mpow(0x7int, 0x4f913eaadac83f4d0937a8f171b6b2bec6afa1b8b8f24180000000nat, modulus()) == 0x68264c75cca37d89433b6355124715ad52f7c991c35dd35fec1b8eed3907cd10int,
{
    let n = 0x73eda753299d7d483339d80809a1d80553bda402fffe5bfeffffffff00000001int;
    let g = 7int;
    lemma_order_power_1();
    let b2 = 0x36fb34ca1cf1bdf3cfcae97d3d3292f63e19c2f2cf2ab065378f4171e23ad3a2int;
    lemma_mpow_first(b2, n);
    let s2_1 = 0x4251124e16f712ac26f2b25a73c71a62432da1a7d0ead4246b64905402ff78baint;
    let v2_1 = 0x394a6484d9854cd53ef989501a9f473a6b99ed33cf38d8602fac2e0f67012739int;
    let e2_1 = lemma_mpow_double_next(b2, n, 1nat, b2, s2_1, v2_1);
    let v2_2 = 0xf465e9496cd49304a7913bbbfba6b7df5db1e97771af12e8f2ddd3a591e19afint;
    let e2_2 = lemma_mpow_double(b2, n, e2_1, v2_1, v2_2);
    let v2_3 = 0x1d7519d020f1a98a89f07f81cab163353676fbc952ce8ebe950a523f23358e9bint;
    let e2_3 = lemma_mpow_double(b2, n, e2_2, v2_2, v2_3);
    let v2_4 = 0xc5c89399d516669bdcb62e744cac92cfdfb9ad50257b31a517237ea869e819cint;
    let e2_4 = lemma_mpow_double(b2, n, e2_3, v2_3, v2_4);
    let v2_5 = 0x692f3de0b89906540c0f5563a2f41ea7a21324bd91018e51df8bc10d329cbdddint;
    let e2_5 = lemma_mpow_double(b2, n, e2_4, v2_4, v2_5);
    let v2_6 = 0x5aa1a05d616116482b604b03caf18e5accf0114d1204e34a2b5032ceaeb64a85int;
    let e2_6 = lemma_mpow_double(b2, n, e2_5, v2_5, v2_6);
    let s2_7 = 0x633b46d55e30023fd92e938fddda118bc86d744d62f319ddd4ba9922e2f582dbint;
    let v2_7 = 0x591e67fb0970903cd5f004f99097a12865c3b843568e6cb03e07c9f1cefd063int;
    let e2_7 = lemma_mpow_double_next(b2, n, e2_6, v2_6, s2_7, v2_7);
    let s2_8 = 0x1736dca55203f7bbc834990c2da821e65721ee5aa58bab57ebfbe1f64ffe5d4aint;
    let v2_8 = 0x53ed436bff1b4a26346610390bee4c760bbcda44fbcc3a8613f3bed07e36a317int;
    let e2_8 = lemma_mpow_double_next(b2, n, e2_7, v2_7, s2_8, v2_8);
    let s2_9 = 0x6b588fb98ddc892d1d0da08b8059c44ad6db1871375f251f6fdec700c588a446int;
    let v2_9 = 0x5c23ffcac1ec6f051c91ce67ededf6f35cc1c5f224770423ebe524b97edfc335int;
    let e2_9 = lemma_mpow_double_next(b2, n, e2_8, v2_8, s2_9, v2_9);
    let s2_10 = 0x5f5b906806d91f8c13e13e23d9e625f24c324f4e2a10c62386d947d9648fa4ffint;
    let v2_10 = 0x43ce3898c02c7c7ef1bc9705d7784fb64474a793a013f857ac033ac05167e316int;
    let e2_10 = lemma_mpow_double_next(b2, n, e2_9, v2_9, s2_10, v2_10);
    let s2_11 = 0x4beb2a19658a1b3646ae7b2b523782171709df476eb304389a077e48ecba8a51int;
    let v2_11 = 0x26b3d52fe81a79035c157d6032c99a85990d572ed6d7e56403c74f728f5ec111int;
    let e2_11 = lemma_mpow_double_next(b2, n, e2_10, v2_10, s2_11, v2_11);
    let s2_12 = 0x5a705d625745fa221b510682f2918fa006bb1f3081d5d9d187c879467ed5c444int;
    let v2_12 = 0xa9975b667f2cc03f15c44c9b875aace0c96a07a78ddab63c20bf24374ab6ff5int;
    let e2_12 = lemma_mpow_double_next(b2, n, e2_11, v2_11, s2_12, v2_12);
    let s2_13 = 0x383b8f9bf66d79918c4019f473697e4df43215bf5e0758e479e789e496784eefint;
    let v2_13 = 0x252f200a713d1b0557d349db13e40a833ebb76c3bc9c926dbf58af3ae0145afeint;
    let e2_13 = lemma_mpow_double_next(b2, n, e2_12, v2_12, s2_13, v2_13);
    let v2_14 = 0x7169863466e11d075fd5b52d0b19bdae8974916160b05dd01f479b4cbf785705int;
    let e2_14 = lemma_mpow_double(b2, n, e2_13, v2_13, v2_14);
    let s2_15 = 0x294047a6b81dd0b45d33bb41a86f062effb1534fc480cdf07e111e10170dd468int;
    let v2_15 = 0x41fcfb3139fb9a1ba6ac10f77d52d7c396a540aecd429a01d292aa2f8839c80cint;
    let e2_15 = lemma_mpow_double_next(b2, n, e2_14, v2_14, s2_15, v2_15);
    let v2_16 = 0x32d49acfb4ad9da0d2925d2cd73bebb7117c5af22e087e1ffe09d4385cd4d641int;
    let e2_16 = lemma_mpow_double(b2, n, e2_15, v2_15, v2_16);
    let v2_17 = 0x2e18809418531c388c7f2299f2c87e2d0d18ab573aaf20eb9eb8124e32cd7ab3int;
    let e2_17 = lemma_mpow_double(b2, n, e2_16, v2_16, v2_17);
    let s2_18 = 0x9683f1f7da69708e6c984e6673488873099b32607e9d9e57b7f817f97ba779eint;
    let v2_18 = 0x2d8239a0ca949c7cb5e9ced254a02f779c0278bc44aa896b384589237ea20ec3int;
    let e2_18 = lemma_mpow_double_next(b2, n, e2_17, v2_17, s2_18, v2_18);
    let s2_19 = 0x729b1181cdd80dd8774b7ba78f8624aac507d874b1c8206782d5a58c0aeae81int;
    let v2_19 = 0x62daa1b042eacc40888f89a55c5ff5f1c40b6806193a3dd8c314a590725905a2int;
    let e2_19 = lemma_mpow_double_next(b2, n, e2_18, v2_18, s2_19, v2_19);
    let s2_20 = 0x7139325e82e6a602e07b3782aa5edcef4405d49635a8afbc87bc6dc879cb33deint;
    let v2_20 = 0x6996ff8fd2fe044de720ce1665957f119763d68aca39146aa95b4c984ec53ecdint;
    let e2_20 = lemma_mpow_double_next(b2, n, e2_19, v2_19, s2_20, v2_20);
    let s2_21 = 0x47a370adfa9c1f68d019467f0ed58f2868aedcef0ac78e719767c26a1dd86e50int;
    let v2_21 = 0x6dc01acf91e81a3a63b0ac2ffdc5871da8e99c5b1c68d9ca4e366e5dbf0be2cdint;
    let e2_21 = lemma_mpow_double_next(b2, n, e2_20, v2_20, s2_21, v2_21);
    let v2_22 = 0x48b4ce22ca313bc85b78a3c897d3c7848f51134bb17e2757b6a7691651d2eca5int;
    let e2_22 = lemma_mpow_double(b2, n, e2_21, v2_21, v2_22);
    let v2_23 = 0x60a090ffc15bd29da0e945be87bababaf4acb8b7a6f1d0e57270c9de3de66f0dint;
    let e2_23 = lemma_mpow_double(b2, n, e2_22, v2_22, v2_23);
    let v2_24 = 0x6a7beae61f57bf8452a0f16bd0bb0dffa4acf577fc64b41fb0cb3c261439084int;
    let e2_24 = lemma_mpow_double(b2, n, e2_23, v2_23, v2_24);
    let v2_25 = 0x4fe11cb443cbd2d299ce9715c6fcd9d7afdb4990342b9baceb24f6280ab965baint;
    let e2_25 = lemma_mpow_double(b2, n, e2_24, v2_24, v2_25);
    let s2_26 = 0x551671a6e333c81cc2a278f84cfa46acdb126cbedfab58e9288f654d8ee71f4aint;
    let v2_26 = 0x514eb5fea6308bb101249fac438318a233041bed32330ab5cf996cf6d148b00bint;
    let e2_26 = lemma_mpow_double_next(b2, n, e2_25, v2_25, s2_26, v2_26);
    let v2_27 = 0x25e8900eb3e3526f8b10e7b702b86801cc2d3e1d5b8db3c4153e4a4f3ffd9f35int;
    let e2_27 = lemma_mpow_double(b2, n, e2_26, v2_26, v2_27);
    let v2_28 = 0x3063cb03888477037f989bc76ada2a9b1e881a126d40f7d1e196b0e5a4915ab0int;
    let e2_28 = lemma_mpow_double(b2, n, e2_27, v2_27, v2_28);
    let s2_29 = 0x3097ef7193d68aac2c0d44d566deb8cbcc7bcc836fe104b752a88c097720c647int;
    let v2_29 = 0x34508e8c83edc1a178036e11c18f383275fccb136b350849f7300535ae397668int;
    let e2_29 = lemma_mpow_double_next(b2, n, e2_28, v2_28, s2_29, v2_29);
    let s2_30 = 0x5b6a42c5c5a25c9da3abb52da9663df4b1109e0d91b80c85dc161ab0bbb7ec8aint;
    let v2_30 = 0x28af17b3b99c4c570e73a69945f9c47f3c9ae9a395512baece90cdc5b944adb1int;
    let e2_30 = lemma_mpow_double_next(b2, n, e2_29, v2_29, s2_30, v2_30);
    let s2_31 = 0x2aa1f26c924a45b91b6168bf58b297f1faaf4f7aedea5db000c55a99a4d82147int;
    let v2_31 = 0x33c88c9890984478780734130a6e219d1b84134d3fef81b6c486382128b531faint;
    let e2_31 = lemma_mpow_double_next(b2, n, e2_30, v2_30, s2_31, v2_31);
    let s2_32 = 0x5fbbf3971c49904918174918f82b3f8127b356f0e98fbe3b0c782eced5f54193int;
    let v2_32 = 0x1fdd524beb38fb41fd2155867b6ed905182a378a8e3af515dab57ff3c91620int;
    let e2_32 = lemma_mpow_double_next(b2, n, e2_31, v2_31, s2_32, v2_32);
    let v2_33 = 0x5a76d4e690bd9ad99c823ff8e51a90ad13767969b61f90d1e62cfcb90e2d086int;
    let e2_33 = lemma_mpow_double(b2, n, e2_32, v2_32, v2_33);
    let v2_34 = 0x19eda92542b42e0c6ac4379b60217ae56ea7ec3b789961d6db8728e019cd2c08int;
    let e2_34 = lemma_mpow_double(b2, n, e2_33, v2_33, v2_34);
    let s2_35 = 0x646fe0098c0298a49b8d2497416dd38d5f54139400081a39cd28ba9fc3d1fa25int;
    let v2_35 = 0x471864f99160c162ece6d79526049b7b904b5e490742a509ad295afea7e40b42int;
    let e2_35 = lemma_mpow_double_next(b2, n, e2_34, v2_34, s2_35, v2_35);
    let v2_36 = 0x1477c7965a59c1c49509fa56aa6cedad9bcc8ba5b9ac747d7cceb8365b31fd6fint;
    let e2_36 = lemma_mpow_double(b2, n, e2_35, v2_35, v2_36);
    let s2_37 = 0x2f34ef37ea0f4b89a53abfc3b2bb634e6a0dd518117d82d3079af206ae66aba8int;
    let v2_37 = 0x44bb6ffb32a714bab3956ada917ccc4886166c60d60f65ab694971877bd8773bint;
    let e2_37 = lemma_mpow_double_next(b2, n, e2_36, v2_36, s2_37, v2_37);
    let s2_38 = 0x33f6a3883479cec50b210af8d0a7045d8b3de61ac2b41615c1e66d4fb81034deint;
    let v2_38 = 0x1624cab2b91e0ef1d28bc41c56a8181d17ab4920ad4e267ebace39f8f2d09306int;
    let e2_38 = lemma_mpow_double_next(b2, n, e2_37, v2_37, s2_38, v2_38);
    let v2_39 = 0x166ab6a29778d43e4dd3b5347582f75ae2b6eb631df5fc242f15e3395c7b1d9bint;
    let e2_39 = lemma_mpow_double(b2, n, e2_38, v2_38, v2_39);
    let v2_40 = 0x551616adebda09bf8e33a2f003668f1be2a1caf2cf23104fd1744fbdcf06e06eint;
    let e2_40 = lemma_mpow_double(b2, n, e2_39, v2_39, v2_40);
    let s2_41 = 0x716901bc407f54e368fd057494573d1c06ba1c75cc98a67427e6175d46195eb7int;
    let v2_41 = 0x13111350b9ac448349bf1b7b1188fcbeb73146c15dc9c1d1e217c4b2c4f704acint;
    let e2_41 = lemma_mpow_double_next(b2, n, e2_40, v2_40, s2_41, v2_41);
    let s2_42 = 0x5ed538fa47a8aebd90a0919a7cdbe391ef0ff37330b71de2f08cbd89e33442dfint;
    let v2_42 = 0x6eb53d351a5869addbbeba6bcc6fbff68972a8b6af4c357337aebb27c2962f89int;
    let e2_42 = lemma_mpow_double_next(b2, n, e2_41, v2_41, s2_42, v2_42);
    let s2_43 = 0x2ebb5de4601388c10300c3c1b5ce42346e710f10eb817888d07ba08cb93ea024int;
    let v2_43 = 0x3fc574922d97b77b52f53a4190e2b1ecb4530ff24c35683ded41243ed9d4b42dint;
    let e2_43 = lemma_mpow_double_next(b2, n, e2_42, v2_42, s2_43, v2_43);
    let v2_44 = 0x3b423d28b78325006b70a05c4982bb8daf7e1247d39a36d649c25d1a918c5d23int;
    let e2_44 = lemma_mpow_double(b2, n, e2_43, v2_43, v2_44);
    let v2_45 = 0x654a28d50fb462c9457911d31a46b4cb9c75bd4b847e90d30d7451a799c4719cint;
    let e2_45 = lemma_mpow_double(b2, n, e2_44, v2_44, v2_45);
    let v2_46 = 0x110840991e9ccb1d10dfe9a169e10b02d1b000a44c4300a9e3eb9dfa8acf01bint;
    let e2_46 = lemma_mpow_double(b2, n, e2_45, v2_45, v2_46);
    let v2_47 = 0x194a3bffe587e51a15f6a07b384ebc5f8c0712abb4563b259f3e049dede0ff60int;
    let e2_47 = lemma_mpow_double(b2, n, e2_46, v2_46, v2_47);
    let v2_48 = 0x237b5350293fd8387e909d5b64af1b92bef7f5e019b65b0dc563486bd47b1971int;
    let e2_48 = lemma_mpow_double(b2, n, e2_47, v2_47, v2_48);
    let s2_49 = 0x70b36ba855b989a1933fe68d90ea2aa18401af9e5486fa102d256819d43ba967int;
    let v2_49 = 0x71e7afe8ae2b5fda1bcad74d2d6a03b62f66e3c8fc30267e83f33829030a3a79int;
    let e2_49 = lemma_mpow_double_next(b2, n, e2_48, v2_48, s2_49, v2_49);
    let v2_50 = 0x6c05a15111f01026c0b9a79524089d7d087e990da52145bfc3e920a1389fc3b4int;
    let e2_50 = lemma_mpow_double(b2, n, e2_49, v2_49, v2_50);
    let s2_51 = 0x3a1a0ff968c11b828f4283f2b0750ae2fea908daa6d62d357f06e923821e30dfint;
    let v2_51 = 0x22fdab8970152e544dc8212830a8305353a0d99e629db5cc370f6b09c4e8cb09int;
    let e2_51 = lemma_mpow_double_next(b2, n, e2_50, v2_50, s2_51, v2_51);
    let v2_52 = 0x4b3219983b9b9e0ecd75ac798287b88f3da7d248c3d64ad422a002e41be0c92cint;
    let e2_52 = lemma_mpow_double(b2, n, e2_51, v2_51, v2_52);
    let s2_53 = 0x6e2e8ad6e69f14c3d7f5a473d7051ab19174bd24ece67d514d77114000ed6b9cint;
    let v2_53 = 0x68dfba54cbe918dbda36979473e61a3c8230c54b81b0bed852f5f6f03423d577int;
    let e2_53 = lemma_mpow_double_next(b2, n, e2_52, v2_52, s2_53, v2_53);
    let v2_54 = 0x1b5e4535ee1210d4208daa94832ddd5a13079b15f4f5da72b4cd506941f3725int;
    let e2_54 = lemma_mpow_double(b2, n, e2_53, v2_53, v2_54);
    let s2_55 = 0x37bb11bc21c17eb1accf8dac75443253fdd8985645d3b8dd0c18b3d4a7e1d83aint;
    let v2_55 = 0x1d6d1f88df447ccbe7bcb4e4c818ead2a33c246e67d5014c62db305ac0d43fdeint;
    let e2_55 = lemma_mpow_double_next(b2, n, e2_54, v2_54, s2_55, v2_55);
    let s2_56 = 0x5d136cb582c0f4cf218ebf478d6dd18bc36e57d74a45083586268d9a3968b994int;
    let v2_56 = 0x58182f4c93eb0de725ee76d3a2b7946dd3470eba77dc9223f73273659c827ec8int;
    let e2_56 = lemma_mpow_double_next(b2, n, e2_55, v2_55, s2_56, v2_56);
    let v2_57 = 0x287d9a3fba419944102d466d460dc64ae334d75ad43c2e499bdd4a168542dd68int;
    let e2_57 = lemma_mpow_double(b2, n, e2_56, v2_56, v2_57);
    let v2_58 = 0x2a8c47b7767de5ff55f7a2862c5678a691229255dc3f5112617bc23d9da08e95int;
    let e2_58 = lemma_mpow_double(b2, n, e2_57, v2_57, v2_58);
    let v2_59 = 0x61383ba7e8d82beb6ce6bd37d5ee7bf03f553d78071c40103163d57b201dc3b1int;
    let e2_59 = lemma_mpow_double(b2, n, e2_58, v2_58, v2_59);
    let s2_60 = 0x1cf9e30bc8c2019c0eecaad439e18d8e0e39a4f166c218b59cd72b61928203c7int;
    let v2_60 = 0x43b9ba2af08a8ac32474076e6f08ba823fd310c471385e9459ac000e12d02e6eint;
    let e2_60 = lemma_mpow_double_next(b2, n, e2_59, v2_59, s2_60, v2_60);
    let v2_61 = 0x24560ce127c45f6281caced311701218e9d43f7d17a97a5152a121eef77abb3cint;
    let e2_61 = lemma_mpow_double(b2, n, e2_60, v2_60, v2_61);
    let s2_62 = 0x4cb780ea8eab534231b2e481a65a9001a9ee35dd71923330bd09d7e9e76f8d5cint;
    let v2_62 = 0x6596af09f979c819060115e35d15f0941304cdd507d0350032d8476c4a08ae1int;
    let e2_62 = lemma_mpow_double_next(b2, n, e2_61, v2_61, s2_62, v2_62);
    let s2_63 = 0x44e5ab5fd7a023d4f078de0e2279b4b94284463031ae5c25e4d97f3e4c44520int;
    let v2_63 = 0x6e47f33c64c015b61f88431c6610db37632c0949ddebfc387706089767576470int;
    let e2_63 = lemma_mpow_double_next(b2, n, e2_62, v2_62, s2_63, v2_63);
    let s2_64 = 0x6d785feeb65d0895ad66eac58c01ecb8aa147a9f906fe5870366ef267f4aee69int;
    let v2_64 = 0x3de6ccfa3ea2fc686b1d0474efafb7dc783061a33054d156e6d907ce74639679int;
    let e2_64 = lemma_mpow_double_next(b2, n, e2_63, v2_63, s2_64, v2_64);
    let v2_65 = 0xd33442a217f6420485e1c11594be70b1001a5c89b6cb7253c7445b5ea3d7757int;
    let e2_65 = lemma_mpow_double(b2, n, e2_64, v2_64, v2_65);
    let v2_66 = 0x487e14f786330917084b0e5276ed003f17cf816e7d9be736e00db3f98dca10cdint;
    let e2_66 = lemma_mpow_double(b2, n, e2_65, v2_65, v2_66);
    let s2_67 = 0x714ef6354f66c9dde118065b313ba919ded7a96b129c23a4ea5752f6f89f0366int;
    let v2_67 = 0x240eacb02ce3ae27b934080db9a0bae1a00814fe2d5178e65b9d63d2b299be26int;
    let e2_67 = lemma_mpow_double_next(b2, n, e2_66, v2_66, s2_67, v2_67);
    let v2_68 = 0x5dd2f371d60c3b50de4ee61f78ae6324de31512f2c56bc9e0a7e754e73f5bf8eint;
    let e2_68 = lemma_mpow_double(b2, n, e2_67, v2_67, v2_68);
    let s2_69 = 0x2315ecf39c166c94f2d2df84c0bba8aa31220bc3eefbb8c7a36ae838ffe74e30int;
    let v2_69 = 0x498cdd5974480999fe6425a866a321ad71cc9ce8fed83b71157b1441e085b9int;
    let e2_69 = lemma_mpow_double_next(b2, n, e2_68, v2_68, s2_69, v2_69);
    let v2_70 = 0x5c2cbfe0216b5644d6b54114669f6349aa6639b99d8390bcfcf818550b70d299int;
    let e2_70 = lemma_mpow_double(b2, n, e2_69, v2_69, v2_70);
    let s2_71 = 0x3b153df346f9882e748e56f3057ca453e098b52ca9a1cea485be8f0881953a75int;
    let v2_71 = 0x1b0732559f2e9bb234840abef38c6e8dbb6024045d8db6387907f569d192c61bint;
    let e2_71 = lemma_mpow_double_next(b2, n, e2_70, v2_70, s2_71, v2_71);
    let s2_72 = 0x4a91073ab4dfa3a4f342e29d3d7a20aaace699c1085a486780fdbd5140114ff8int;
    let v2_72 = 0x215faa79559c9fbf7decd4af097667668f6d73aa3a58ecb5dbed47274e48c112int;
    let e2_72 = lemma_mpow_double_next(b2, n, e2_71, v2_71, s2_72, v2_72);
    let v2_73 = 0x5018878fc678ea5da4f7e4141f2de9c79bcb9c68d83f39445cda621b353c8456int;
    let e2_73 = lemma_mpow_double(b2, n, e2_72, v2_72, v2_73);
    let v2_74 = 0x2769513552b95c4c090434d909e22648cb3feff29d85ca2e099894bc76e82061int;
    let e2_74 = lemma_mpow_double(b2, n, e2_73, v2_73, v2_74);
    let s2_75 = 0x1d5bf6e46461e386f3b091b85675fd45a25110563f169a57e757748f2546b851int;
    let v2_75 = 0x10e0c971cfe37042818844f1fefff155174cee9dccfd1c6d236865af0fdb0d54int;
    let e2_75 = lemma_mpow_double_next(b2, n, e2_74, v2_74, s2_75, v2_75);
    let s2_76 = 0x224f450e1c5b8cae0aac64b1eb2a523eed7d28d8be085c65bf004fa57ee4742aint;
    let v2_76 = 0x24278db455934b3316e36033ea1084075603e3b7117ced764210e444abb38af8int;
    let e2_76 = lemma_mpow_double_next(b2, n, e2_75, v2_75, s2_76, v2_76);
    let s2_77 = 0x5f351bee012a7053bf3dec1d09d685dbd7f5068fb994ccace75322be9503873bint;
    let v2_77 = 0x424a9c1652c160a2114305466b3903c28a01bd9129517033592452839d4a27faint;
    let e2_77 = lemma_mpow_double_next(b2, n, e2_76, v2_76, s2_77, v2_77);
    let s2_78 = 0x363378e23b4e930275bfe2e913e0e64ad1d1e5abd19201609ad81f20c3f9e4caint;
    let v2_78 = 0x204fc5051b2a908a1a0d61f2f61f16fe632965094859670ec72ed13f38c313b7int;
    let e2_78 = lemma_mpow_double_next(b2, n, e2_77, v2_77, s2_78, v2_78);
    let v2_79 = 0x2212b5e47bc27bad752b73a2af6c83ba26c2c421056c44799ca0571a981fe114int;
    let e2_79 = lemma_mpow_double(b2, n, e2_78, v2_78, v2_79);
    let s2_80 = 0x4328311efcf4a02525ea922ba6feb3b8dfd74feaca25a3bd079615638983bba9int;
    let v2_80 = 0x5a1e575495f4a155f02dc6a123e4ba07789f7cb8cc31c373c0cbdd276a7c7f79int;
    let e2_80 = lemma_mpow_double_next(b2, n, e2_79, v2_79, s2_80, v2_80);
    let v2_81 = 0x92ccd900c6de817f4380a8cc9f746c595f3f01953ca4bd8709588b0ef3146b0int;
    let e2_81 = lemma_mpow_double(b2, n, e2_80, v2_80, v2_81);
    let s2_82 = 0x105dcb7ae13cc8ee0608aecc6734b0c9a8ddca4f89a59eadc7b79c842acb2a60int;
    let v2_82 = 0xac140e25b9039c1b21cc97d744e82c7ad26d7f37d986a4333bb90edf1d0d387int;
    let e2_82 = lemma_mpow_double_next(b2, n, e2_81, v2_81, s2_82, v2_82);
    let v2_83 = 0x3ed6608861c5a8598566e8314fb439fa23468abc069411e17ddc898f9afd1b46int;
    let e2_83 = lemma_mpow_double(b2, n, e2_82, v2_82, v2_83);
    let s2_84 = 0x4e4e9e4bc73816d3c673c15b5c2b04684251354045cfb63753e49ec9e987ec71int;
    let v2_84 = 0x42686cd5366ed516e4e7970ec3a2564b90f67943e5ae9083ea2b485aef010477int;
    let e2_84 = lemma_mpow_double_next(b2, n, e2_83, v2_83, s2_84, v2_84);
    let v2_85 = 0x29635f9ab9cbab4ecc4af81de709e32be923acd5249d9c00d40eb330bc330cfaint;
    let e2_85 = lemma_mpow_double(b2, n, e2_84, v2_84, v2_85);
    let v2_86 = 0x6f4808ffa486580b11c4e7e0899b83cc774598108fe5cd3902ad021a6dd17621int;
    let e2_86 = lemma_mpow_double(b2, n, e2_85, v2_85, v2_86);
    let v2_87 = 0x22bab8958b934d8c8b77517bbca39b225dfb825bb28ab654f7679b7a7afe9af7int;
    let e2_87 = lemma_mpow_double(b2, n, e2_86, v2_86, v2_87);
    let v2_88 = 0x4338c889b8c69e606ba410dd448c37c752326947210c8043a2030dcd9e63f11fint;
    let e2_88 = lemma_mpow_double(b2, n, e2_87, v2_87, v2_88);
    let v2_89 = 0x579f985b68b83bd42418294d013ad5da00d9c42f6725ea829abc0daf29b9539aint;
    let e2_89 = lemma_mpow_double(b2, n, e2_88, v2_88, v2_89);
    let v2_90 = 0x2e24f94456ca9ed304f325cc28f41dcdb3a144e68964485026d409fe9c2230fbint;
    let e2_90 = lemma_mpow_double(b2, n, e2_89, v2_89, v2_90);
    let v2_91 = 0x26eb713b638c5cd6947d6aa46a4be0e9092c0e73107617cf77dbcee6d84026feint;
    let e2_91 = lemma_mpow_double(b2, n, e2_90, v2_90, v2_91);
    let v2_92 = 0x3f8d09b5db5c7da6144d65cc22e09beb18d437c381c9a251305304274c9457f7int;
    let e2_92 = lemma_mpow_double(b2, n, e2_91, v2_91, v2_92);
    let s2_93 = 0x55cd2b5f8e51035e635c1ab035200189397956dd6acc53d7f38766c38f10975dint;
    let v2_93 = 0x4cdc4704feb5b734cb2ba2da2f7197ea6ad0cc9fb566f4356222631e122ceb1cint;
    let e2_93 = lemma_mpow_double_next(b2, n, e2_92, v2_92, s2_93, v2_93);
    let v2_94 = 0x17ae3383e94e92343faf5980dc967625bd6708ed05ecd39863076c0d0ca1b987int;
    let e2_94 = lemma_mpow_double(b2, n, e2_93, v2_93, v2_94);
    let v2_95 = 0x1bdc9b2f49b23585c28bf7beb8a7690b30903d7f94e12ec1f24d8a9a4f57bf39int;
    let e2_95 = lemma_mpow_double(b2, n, e2_94, v2_94, v2_95);
    let s2_96 = 0x475fd4f2456949a0bb6ec6d5e040bc3890a5de422f2f7451725784886889bd42int;
    let v2_96 = 0x58f4b253e3f19221df345572b2062325adb8168a221f4b2af2adc9271644888bint;
    let e2_96 = lemma_mpow_double_next(b2, n, e2_95, v2_95, s2_96, v2_96);
    let s2_97 = 0x32a2f966b794aac66c636e82505a25dcf816339b85d0e385104e0bce982aa106int;
    let v2_97 = 0x10e84833c8014ee0d958fe3aee234029064a76b108dfbf7656a0711db9817733int;
    let e2_97 = lemma_mpow_double_next(b2, n, e2_96, v2_96, s2_97, v2_97);
    let v2_98 = 0x3838ab6ce6e1fb6c4c37c99156901185f2c5fc611f80f123e9e0de7dd35a6f32int;
    let e2_98 = lemma_mpow_double(b2, n, e2_97, v2_97, v2_98);
    let v2_99 = 0x3f1402daff37ca5164a459a08513ff8b7afc517fad656ca0ba0425878c63aa32int;
    let e2_99 = lemma_mpow_double(b2, n, e2_98, v2_98, v2_99);
    let v2_100 = 0x2e0aa8e225691e216d2c5534fd7bc1caac70a6115539ff8808f276b4bb745e59int;
    let e2_100 = lemma_mpow_double(b2, n, e2_99, v2_99, v2_100);
    let v2_101 = 0x21465a62b0f6dbbc58eb8a0991099682e6b25468c390d8dc6a49664e6c39a93eint;
    let e2_101 = lemma_mpow_double(b2, n, e2_100, v2_100, v2_101);
    let v2_102 = 0x11abdd0da1b058f0ed051aed79147c00a8f975892c8c8242985e12c457a95b7aint;
    let e2_102 = lemma_mpow_double(b2, n, e2_101, v2_101, v2_102);
    let v2_103 = 0x1b7faf5fb452525f14beec4b981f32c1ee67bd18ffb5de26baf712da85b21b67int;
    let e2_103 = lemma_mpow_double(b2, n, e2_102, v2_102, v2_103);
    let v2_104 = 0xa2c1bbf0775b7db3bffe4d8e87483596079eea361e0d19eca1e493f84784a4fint;
    let e2_104 = lemma_mpow_double(b2, n, e2_103, v2_103, v2_104);
    let s2_105 = 0x44f5e12e482203d5a9e6fe130b679a51b363785be4e3eaf8ab660d42475e33e3int;
    let v2_105 = 0x5326ec1bebe9a18fc21e2976431368a38df06aecb481f724979c523a7aad9302int;
    let e2_105 = lemma_mpow_double_next(b2, n, e2_104, v2_104, s2_105, v2_105);
    let s2_106 = 0x57d972dd18b8b6cdab874cd5ed650b45b0ccfd081d73270b2f932dab8dbaf2a2int;
    let v2_106 = 0x612d3e63685b3f90dfd12a6ff1f59d4b381dfd6e82a008e2e099f4852b2fa84bint;
    let e2_106 = lemma_mpow_double_next(b2, n, e2_105, v2_105, s2_106, v2_106);
    let s2_107 = 0x2c2b886c50c2f671db2492d3959e8ee91b9dbc1119a8cd6632d9fba47d6ba98cint;
    let v2_107 = 0x41a87d5c27cae0548d18cd7a338b51a58f7bcbb78f096dd63502cfd654e961a2int;
    let e2_107 = lemma_mpow_double_next(b2, n, e2_106, v2_106, s2_107, v2_107);
    let v2_108 = 0x6bddc4d7bf90a9504f1fb4025b3771740ea263bb261fd1a9484c93356130741fint;
    let e2_108 = lemma_mpow_double(b2, n, e2_107, v2_107, v2_108);
    let v2_109 = 0x1539e6896482564ed02ddcb857dfe720acf7f8d962c3aa019bf1f954144b2094int;
    let e2_109 = lemma_mpow_double(b2, n, e2_108, v2_108, v2_109);
    let v2_110 = 0x5f08761bb1dd39784e3ec8a34b0e3672a8959763f48cb4db514e008ae49d33cdint;
    let e2_110 = lemma_mpow_double(b2, n, e2_109, v2_109, v2_110);
    let s2_111 = 0x206201c807048cedaa91f310add5ffe19a828623e422b2be1db966dfecf02655int;
    let v2_111 = 0x5a9abbaa6f6ca0d518f22518875993a7eb66f8c053213b5515c962e1b63f2c20int;
    let e2_111 = lemma_mpow_double_next(b2, n, e2_110, v2_110, s2_111, v2_111);
    let v2_112 = 0x575f99bdf0a4f594fd945dfc13e8448cafa0aba2c8d99aa536860ef12177408dint;
    let e2_112 = lemma_mpow_double(b2, n, e2_111, v2_111, v2_112);
    let s2_113 = 0x16c548472954f5d3bfb0000cd4a38d9bb66fcdfc65142d7341cc318b7ed18cd3int;
    let v2_113 = 0x5c0f11b6f1dbeeca288dcfdc7a05a98ebdac04077de13e91475ea79b74acf185int;
    let e2_113 = lemma_mpow_double_next(b2, n, e2_112, v2_112, s2_113, v2_113);
    let s2_114 = 0x46daf4da35c0754af4657e9237a48e065c6afe6a6fe32cec47bfc5c4ba41962eint;
    let v2_114 = 0x4234be9eaaaa74fc8d9228b82fd5a35ef5029aee740717aa94740aed3247ec52int;
    let e2_114 = lemma_mpow_double_next(b2, n, e2_113, v2_113, s2_114, v2_114);
    let s2_115 = 0x6de0f60c3e3c78885335014dd51778fb6131c795d04ea61e36e187e7212c81ddint;
    let v2_115 = 0x222a2aaf1c623084e355e2a40927dbb5b963bc50cb07b2a0c7d72e127e7b6f63int;
    let e2_115 = lemma_mpow_double_next(b2, n, e2_114, v2_114, s2_115, v2_115);
    let v2_116 = 0x3d9576e7090c8e437591bea3276b3895b34944b6b3ebd9a1bebd886551b7f802int;
    let e2_116 = lemma_mpow_double(b2, n, e2_115, v2_115, v2_116);
    let v2_117 = 0x426d9711f49b602ac73fe202520b98a16619c5a53fc3935d9fa31078cbee6064int;
    let e2_117 = lemma_mpow_double(b2, n, e2_116, v2_116, v2_117);
    let v2_118 = 0x7225bd6c49fbdcf3a32d6f3ead761fd17909036c0f8445096f34bf255461a7bint;
    let e2_118 = lemma_mpow_double(b2, n, e2_117, v2_117, v2_118);
    let s2_119 = 0x33603a0b588c2b7f954ec695e62bf1956560cd4e1a40b655393d9da6a93d4ccbint;
    let v2_119 = 0xe341009f338836ba9550a08956fba7f85e35b171798cd36bb76116419193f24int;
    let e2_119 = lemma_mpow_double_next(b2, n, e2_118, v2_118, s2_119, v2_119);
    let s2_120 = 0x2440a7d72a48998e5ede5dfdf1235e8e7baf67da3d98079d3d7ba2525076504aint;
    let v2_120 = 0x5df11d78f3f8abd46deac0a3fcb87dc9b4f9389938ca5754e96a4d9b54ecfbb2int;
    let e2_120 = lemma_mpow_double_next(b2, n, e2_119, v2_119, s2_120, v2_120);
    let s2_121 = 0x6b0eaabeb1b039ee80f6c3923d7ac5cb22653ac9f764212bf81014bbf4ad334int;
    let v2_121 = 0xa3aaeaa31b2c2dc71f74fa1012dc5c16dcd5b77f9f1ec86ef98e41d78791cc0int;
    let e2_121 = lemma_mpow_double_next(b2, n, e2_120, v2_120, s2_121, v2_121);
    let s2_122 = 0x42bac4e79346becd26e31a93ea2b64a6c2b5f42a852154e488fe989fdeebe631int;
    let v2_122 = 0x278c96730f350da8e5ab514f19c10afcc4cf8e20dd77765bb725656ae48ab223int;
    let e2_122 = lemma_mpow_double_next(b2, n, e2_121, v2_121, s2_122, v2_122);
    let v2_123 = 0x3e3c98e51e63894268433d073c5fcd4a581ec8ce583d295936369dd875f4f5d8int;
    let e2_123 = lemma_mpow_double(b2, n, e2_122, v2_122, v2_123);
    let v2_124 = 0x13feca02b89f9f4993fb40568ba3e132d189d9bb3dfd6e88d597ee175b41005eint;
    let e2_124 = lemma_mpow_double(b2, n, e2_123, v2_123, v2_124);
    let s2_125 = 0x3e681b85e4a4e44016f2969bb7d42865f5ddf4cabf063108ce6f68d588e26cabint;
    let v2_125 = 0x1d03c0b2a3d3d7eb464bc2ef294d0dbdad66fc127077dab716eb1f74b36fd308int;
    let e2_125 = lemma_mpow_double_next(b2, n, e2_124, v2_124, s2_125, v2_125);
    let v2_126 = 0x5ed8c3fb5a0ff99119ff8d20f32e85adb0872ac1fa12c5d26b0626fbbd574d57int;
    let e2_126 = lemma_mpow_double(b2, n, e2_125, v2_125, v2_126);
    let v2_127 = 0x4a43d4b674c2e104af57eefd07d44e5cf0f5f5012565918402bcb88ea530af9dint;
    let e2_127 = lemma_mpow_double(b2, n, e2_126, v2_126, v2_127);
    let s2_128 = 0x6caa4b7787e3d63f503636e700f260a48169f5ebe948ffae38db184a120d6c6bint;
    let v2_128 = 0x3985a4760257242da9a35ce04940afe8dd92554ff3adaca974f0473f51e75842int;
    let e2_128 = lemma_mpow_double_next(b2, n, e2_127, v2_127, s2_128, v2_128);
    let v2_129 = 0x144537563a1ac0aa5638ef8d1950f4be01c3745a5bc680b4238918ba4c969c4dint;
    let e2_129 = lemma_mpow_double(b2, n, e2_128, v2_128, v2_129);
    let v2_130 = 0x66d2328f08cf12065cb2baf3e86ecc0ff371003bf91e63404be6a585199d0f52int;
    let e2_130 = lemma_mpow_double(b2, n, e2_129, v2_129, v2_130);
    let v2_131 = 0x6ec963e414217ec737c1ea1a76dd48aad7aa29275072fb9f35eb666b30931d14int;
    let e2_131 = lemma_mpow_double(b2, n, e2_130, v2_130, v2_131);
    let v2_132 = 0x667092112d1c4e5a0fb828771cc4d5fb081099c0d7e871c42130e76c1b186210int;
    let e2_132 = lemma_mpow_double(b2, n, e2_131, v2_131, v2_132);
    let v2_133 = 0x6db8aaaef326946d79f434bcbcba9bc278a5ab2ec20f58254720770bbe88321bint;
    let e2_133 = lemma_mpow_double(b2, n, e2_132, v2_132, v2_133);
    let s2_134 = 0x187164984c24b59e6a0f7f4d365f86b98a81efdadc69fe5b498222b5bec30687int;
    let v2_134 = 0x17550b6e8b7ca9f783a8c19c7fd8cf94643d2b9ab9cd9b9f00f52e01a72785f7int;
    let e2_134 = lemma_mpow_double_next(b2, n, e2_133, v2_133, s2_134, v2_134);
    let s2_135 = 0x67c2997225fe9f41927554a278da4bbe330498e98ef4c5edf63996e803834676int;
    let v2_135 = 0x68264c75cca37d89433b6355124715ad52f7c991c35dd35fec1b8eed3907cd10int;
    let e2_135 = lemma_mpow_double_next(b2, n, e2_134, v2_134, s2_135, v2_135);
    lemma_mpow_mul(g, 0x69008000000080000000nat, 0xc1fd3c279670558b959ea804c07171e483nat, n);
}

/// A power of seven modulo the order.
proof fn lemma_order_power_3()
    ensures
        mpow(0x7int, 0x1c1a952b6eefe04f904c155748273c20525c84d9f07bb9360f83e0f80000000nat, modulus()) == 0x681cdda903e92b3e2ff427f4ccba063c06d2ed061565cd9a88d3cd8bc1ff078dint,
{
    let n = 0x73eda753299d7d483339d80809a1d80553bda402fffe5bfeffffffff00000001int;
    let g = 7int;
    lemma_order_power_2();
    let b3 = 0x68264c75cca37d89433b6355124715ad52f7c991c35dd35fec1b8eed3907cd10int;
    lemma_mpow_first(b3, n);
    let v3_1 = 0x737d73bdd3e2a2daed29f942451db67de71dddb0caf71bd72cef988545c0937dint;
    let e3_1 = lemma_mpow_double(b3, n, 1nat, b3, v3_1);
    let s3_2 = 0x1f6529cbfad060d2500d5a3ea51014146946dba0f97fb1fac3f9c9ce483acd38int;
    let v3_2 = 0x5b4a34f57afa32ef363c56895925dc7170f35fb7f2ec7a7c3915ae832bbf72ebint;
    let e3_2 = lemma_mpow_double_next(b3, n, e3_1, v3_1, s3_2, v3_2);
    let s3_3 = 0x595913d596d030a428cab89d89a7dd053fb51ae50a8479da9df56397b1d58c89int;
    let v3_3 = 0x6ff9c5380728172e37f7eafb0badf9675a2453183a7bf10e5c6fdc827a267678int;
    let e3_3 = lemma_mpow_double_next(b3, n, e3_2, v3_2, s3_3, v3_3);
    let v3_4 = 0x4c63d3ced7407d0675fb5811e54ea6f86f8f711e42ed80f202947c5779b7eeefint;
    let e3_4 = lemma_mpow_double(b3, n, e3_3, v3_3, v3_4);
    let s3_5 = 0x2a6217faf4ad12dfc773a077a2c8f1c8bd546d1b64e605e11ed767f8098ac33int;
    let v3_5 = 0x6fa092c246fc0c31ceb9b36c5f59d177d6f8fe01089eb293277393c0d60d7794int;
    let e3_5 = lemma_mpow_double_next(b3, n, e3_4, v3_4, s3_5, v3_5);
    let v3_6 = 0x1fc4d5e75592f1c073d9f2b18082c1ebf1d1dd346f3c1c2ccb44c53b8af94beint;
    let e3_6 = lemma_mpow_double(b3, n, e3_5, v3_5, v3_6);
    let v3_7 = 0x5705538c6de8ce8e7aeaebabbd637d15c612af44b22a795c95a34d20016f7673int;
    let e3_7 = lemma_mpow_double(b3, n, e3_6, v3_6, v3_7);
    let s3_8 = 0x2935e986bd60865cd0f6bd56d6a2c488f950b4776a50442e631580ce780ff771int;
    let v3_8 = 0x24ff1a679f782156305e0b7cf6c7159d1618a58e23c45522c4580cee07245e9aint;
    let e3_8 = lemma_mpow_double_next(b3, n, e3_7, v3_7, s3_8, v3_8);
    let s3_9 = 0x1b766f40dc8548d234d5a731bd1cc3e92ad4179d412d357f3f3aed045bd52107int;
    let v3_9 = 0x13e8809d27879f20b8696cd56ef20755f8304cde12b4a3813a05e73938b625c3int;
    let e3_9 = lemma_mpow_double_next(b3, n, e3_8, v3_8, s3_9, v3_9);
    let v3_10 = 0x6e4ac83db49dbe143535b8da13ac131ffa67cd3b2e16d17250d9b26b23511d47int;
    let e3_10 = lemma_mpow_double(b3, n, e3_9, v3_9, v3_10);
    let s3_11 = 0x7101e5814f2b9c5ecadbdec14689022217566c0f1f2067b49e38696dfd56a035int;
    let v3_11 = 0x6785008bea8a29697c34e0dfd61907bbfd807c6e6355eb4fb5912ea0e7bbaa27int;
    let e3_11 = lemma_mpow_double_next(b3, n, e3_10, v3_10, s3_11, v3_11);
    let v3_12 = 0x3d62c4c534c520d27420e4c24816c3f327915cc9932d46669a64062af9c336edint;
    let e3_12 = lemma_mpow_double(b3, n, e3_11, v3_11, v3_12);
    let s3_13 = 0x8c328c378d54c8be2408841c4984e2bdee9f6ce45159dff3748329c3579164aint;
    let v3_13 = 0x4010f3ad1215063d2affeb203eac1c712f60aeac612b43d1b1ee600294fb2baint;
    let e3_13 = lemma_mpow_double_next(b3, n, e3_12, v3_12, s3_13, v3_13);
    let s3_14 = 0x4139bdc90b7bbf22187a56dac7e24b333362695f499171c4d85a7fd09d38695eint;
    let v3_14 = 0x4c12359d46cec15f21e83cf7ece0e586f7f9bfcc56ba6a6fa64d18fb074be24bint;
    let e3_14 = lemma_mpow_double_next(b3, n, e3_13, v3_13, s3_14, v3_14);
    let s3_15 = 0xc8d631847132a606ca33ace82dc8d2d0677f84e113a4f4d6f10a520fbda09f3int;
    let v3_15 = 0x33cf08bf463552a7e51555db5cfbcea8a0f27dc6c0fce2e61a1eaa66bfab9681int;
    let e3_15 = lemma_mpow_double_next(b3, n, e3_14, v3_14, s3_15, v3_15);
    let s3_16 = 0x332cbf32b4ab22d1205418019d33b0c3660ffbcb5646b0a71b062f9b91d197f9int;
    let v3_16 = 0x4e71fdfe0eeda3dd0d630e54fef62ba45b60d42e76dd4516b4be2ce49f7b5f5aint;
    let e3_16 = lemma_mpow_double_next(b3, n, e3_15, v3_15, s3_16, v3_16);
    let v3_17 = 0x1d10c6ae6cb90af3ba968cc81e4ac5d474d2d8b9c09d8172fcf268da71ac2002int;
    let e3_17 = lemma_mpow_double(b3, n, e3_16, v3_16, v3_17);
    let s3_18 = 0x55f20aa6c1089ddc70388d43f1f72d6878ff428cdc6b8156c4784a256b6cc808int;
    let v3_18 = 0x39adeab91ad41bce2faace7a305f1ca9624d3c57087c88ce63d8c2600829f780int;
    let e3_18 = lemma_mpow_double_next(b3, n, e3_17, v3_17, s3_18, v3_18);
    let s3_19 = 0x307b213c372f40db2aec481e4a1bb92d9a2d715c110cd6bfa3da533336c7607cint;
    let v3_19 = 0x1ea142b91a775dbe542978d2844bd44421a75ab3019ca4f05aa5f0762dc6b27fint;
    let e3_19 = lemma_mpow_double_next(b3, n, e3_18, v3_18, s3_19, v3_19);
    let v3_20 = 0x18b100e859576a06e51e75061456988572dbbe0217c1de8b2696573f6a64a341int;
    let e3_20 = lemma_mpow_double(b3, n, e3_19, v3_19, v3_20);
    let v3_21 = 0x438234593be85da28b50cefde6984f5e956e445020cc585eb6f6762b64da8c60int;
    let e3_21 = lemma_mpow_double(b3, n, e3_20, v3_20, v3_21);
    let v3_22 = 0x22693ae6cc9c210b089e3b49106bd059a59c9ab4c31d6dd8b1778712415fba9cint;
    let e3_22 = lemma_mpow_double(b3, n, e3_21, v3_21, v3_22);
    let s3_23 = 0x64583888d942fa9a035caede483b843dc72c4e272bf17a24b963061d4367d7aeint;
    let v3_23 = 0x11f32b59f1e09476938f8cc7fc1777f982e68713e8805b09cf6d4c36863b86d7int;
    let e3_23 = lemma_mpow_double_next(b3, n, e3_22, v3_22, s3_23, v3_23);
    let s3_24 = 0x6b2b092b0e735d4bd6f85acbf1d55d3c78cf635f7b70a3ecc6850dba03e509a8int;
    let v3_24 = 0x6e2ff1e866374383cfb317e570566047f19397223d6044b7baafa5f0d57541fdint;
    let e3_24 = lemma_mpow_double_next(b3, n, e3_23, v3_23, s3_24, v3_24);
    let s3_25 = 0x4992d763ecc55b3a6b72f4949e09254d37d62a32305fe0933fe4da88ead8610eint;
    let v3_25 = 0x5addd07fa9f67b5a26da954d864f0a6d26c869995279bd46df4903e292337f1int;
    let e3_25 = lemma_mpow_double_next(b3, n, e3_24, v3_24, s3_25, v3_25);
    let s3_26 = 0x3d1ee4a0a959fb2fc9cd8e52ff4025c08d4530add67822338911b7476379dfdaint;
    let v3_26 = 0x6e4f33f0b19cdde63d2cb97e196deacea05b9e3de80f908dd99eedaf040c5f90int;
    let e3_26 = lemma_mpow_double_next(b3, n, e3_25, v3_25, s3_26, v3_26);
    let v3_27 = 0x70a8f955a8d4e04da9411383ec304da0033205598975c726e3d9081bcf3eb20aint;
    let e3_27 = lemma_mpow_double(b3, n, e3_26, v3_26, v3_27);
    let v3_28 = 0x217d9ed6dc568dde9a297cf0882079747f02d05101576a42be9581e0aa51b42bint;
    let e3_28 = lemma_mpow_double(b3, n, e3_27, v3_27, v3_28);
    let s3_29 = 0x217718de7512b73412034b07274e234995e99a9835de48735856a8edfd4b10ccint;
    let v3_29 = 0x4bd203a130e502f416f54764aa636d27c8f766200628ed72e258135c7cf7b863int;
    let e3_29 = lemma_mpow_double_next(b3, n, e3_28, v3_28, s3_29, v3_29);
    let s3_30 = 0x795ace9fc4d05e195cff5bdbfd42dbe2eeea0e6ba0a2d7c2a5feacd71ffdac8int;
    let v3_30 = 0x3c8933fb1debecfe25eb453d649463f5f3aa31bdecb3137a53c22e3a973328ebint;
    let e3_30 = lemma_mpow_double_next(b3, n, e3_29, v3_29, s3_30, v3_30);
    let v3_31 = 0x4d7ba3f8dd54476c6bd27032fc394f40890eb9822aa8c2cb0ae6804742acd72cint;
    let e3_31 = lemma_mpow_double(b3, n, e3_30, v3_30, v3_31);
    let s3_32 = 0x336289e47e401776720a799c95c6d6797dc3844ae6d433c9e023b3d7328f30bcint;
    let v3_32 = 0x3db988f7c9bff1017565cb9056127720538f1685f9002d41b5be4b9beaf10603int;
    let e3_32 = lemma_mpow_double_next(b3, n, e3_31, v3_31, s3_32, v3_32);
    let v3_33 = 0x4c79ed6b208a5cf19e665edc907a9d4adf08942b0c160c19934f6e74f37d6edfint;
    let e3_33 = lemma_mpow_double(b3, n, e3_32, v3_32, v3_33);
    let s3_34 = 0x6f23597846d5dc23403a73fba3ec4253da2e2998cdd19eac3a23320b0adfb8f6int;
    let v3_34 = 0x681cdda903e92b3e2ff427f4ccba063c06d2ed061565cd9a88d3cd8bc1ff078dint;
    let e3_34 = lemma_mpow_double_next(b3, n, e3_33, v3_33, s3_34, v3_34);
    lemma_mpow_mul(g, 0x4f913eaadac83f4d0937a8f171b6b2bec6afa1b8b8f24180000000nat, 0x5a6bd8f35nat, n);
}

/// A power of seven modulo the order.
proof fn lemma_order_power_4()
    ensures
        mpow(0x7int, 0x39f6d3a994cebea4199cec0404d0ec02a9ded2017fff2dff7fffffff80000000nat, modulus()) == 0x73eda753299d7d483339d80809a1d80553bda402fffe5bfeffffffff00000000int,
{
    let n = 0x73eda753299d7d483339d80809a1d80553bda402fffe5bfeffffffff00000001int;
    let g = 7int;
    lemma_order_power_3();
    let b4 = 0x681cdda903e92b3e2ff427f4ccba063c06d2ed061565cd9a88d3cd8bc1ff078dint;
    lemma_mpow_first(b4, n);
    let v4_1 = 0x39b9f3636addbaad4c3e77a1ccc930a330f6ae57ec841d8d42157f00df63d988int;
    let e4_1 = lemma_mpow_double(b4, n, 1nat, b4, v4_1);
    let v4_2 = 0x9102dc78dcb637f0c1b8e135d9788904259813628f33ee6d3493ea910b79598int;
    let e4_2 = lemma_mpow_double(b4, n, e4_1, v4_1, v4_2);
    let v4_3 = 0x337600424d36a9332ef27de9b965f893da5bcc957ccbdb5065f8d61370386be8int;
    let e4_3 = lemma_mpow_double(b4, n, e4_2, v4_2, v4_3);
    let v4_4 = 0x68e59afb084096bf01d62b782305f6f8ab6a59c8af4cc0c2bc642f437a5584f6int;
    let e4_4 = lemma_mpow_double(b4, n, e4_3, v4_3, v4_4);
    let s4_5 = 0x56cb01306f09ae6d042821b95df4c040be0fc9717273026a2dc66267f9bbaee3int;
    let v4_5 = 0x73eda753299d7d483339d80809a1d80553bda402fffe5bfeffffffff00000000int;
    let e4_5 = lemma_mpow_double_next(b4, n, e4_4, v4_4, s4_5, v4_5);
    lemma_mpow_mul(g, 0x1c1a952b6eefe04f904c155748273c20525c84d9f07bb9360f83e0f80000000nat, 0x21nat, n);
}

/// A power of seven modulo the order.
proof fn lemma_order_power_5()
    ensures
        mpow(0x7int, 0x38352a56dddfc09f20982aae904e7840a4b909b3e0f7726c1f07c1f00000000nat, modulus()) == 0x39b9f3636addbaad4c3e77a1ccc930a330f6ae57ec841d8d42157f00df63d988int,
{
    let n = 0x73eda753299d7d483339d80809a1d80553bda402fffe5bfeffffffff00000001int;
    let g = 7int;
    lemma_order_power_3();
    let b5 = 0x681cdda903e92b3e2ff427f4ccba063c06d2ed061565cd9a88d3cd8bc1ff078dint;
    lemma_mpow_first(b5, n);
    let v5_1 = 0x39b9f3636addbaad4c3e77a1ccc930a330f6ae57ec841d8d42157f00df63d988int;
    let e5_1 = lemma_mpow_double(b5, n, 1nat, b5, v5_1);
    lemma_mpow_mul(g, 0x1c1a952b6eefe04f904c155748273c20525c84d9f07bb9360f83e0f80000000nat, 0x2nat, n);
}

/// A power of seven modulo the order.
proof fn lemma_order_power_6()
    ensures
        mpow(0x7int, 0x26a48d1bb889d46d66689d580335f2ac713f36abaaaa1eaa5555555500000000nat, modulus()) == 0xac45a4010001a40200000000ffffffffint,
{
    let n = 0x73eda753299d7d483339d80809a1d80553bda402fffe5bfeffffffff00000001int;
    let g = 7int;
    lemma_order_power_5();
    let b6 = 0x39b9f3636addbaad4c3e77a1ccc930a330f6ae57ec841d8d42157f00df63d988int;
    lemma_mpow_first(b6, n);
    let v6_1 = 0x9102dc78dcb637f0c1b8e135d9788904259813628f33ee6d3493ea910b79598int;
    let e6_1 = lemma_mpow_double(b6, n, 1nat, b6, v6_1);
    let s6_2 = 0x337600424d36a9332ef27de9b965f893da5bcc957ccbdb5065f8d61370386be8int;
    let v6_2 = 0x15164215d48dfa6da3ee5460c9c0736d54f55c0e507019d651d85a5f47064b99int;
    let e6_2 = lemma_mpow_double_next(b6, n, e6_1, v6_1, s6_2, v6_2);
    let s6_3 = 0x7ced1374ec4f3a394a9e4a515ae68699b56112f0ed8bd76b88cbd15ad22a505int;
    let v6_3 = 0xac45a4010001a40200000000ffffffffint;
    let e6_3 = lemma_mpow_double_next(b6, n, e6_2, v6_2, s6_3, v6_3);
    lemma_mpow_mul(g, 0x38352a56dddfc09f20982aae904e7840a4b909b3e0f7726c1f07c1f00000000nat, 0xbnat, n);
}

/// A power of seven modulo the order.
proof fn lemma_order_power_7()
    ensures
        mpow(0x7int, 0xa89f7f04999f41dd61c8800bb0eb68c1ee2b1d1ba2e657445d1745d00000000nat, modulus()) == 0x32e3ee16442ae00d0ade6607de0a05957900e657e09c952e618a16c99985bcdaint,
{
    let n = 0x73eda753299d7d483339d80809a1d80553bda402fffe5bfeffffffff00000001int;
    let g = 7int;
    lemma_order_power_5();
    let b7 = 0x39b9f3636addbaad4c3e77a1ccc930a330f6ae57ec841d8d42157f00df63d988int;
    lemma_mpow_first(b7, n);
    let s7_1 = 0x9102dc78dcb637f0c1b8e135d9788904259813628f33ee6d3493ea910b79598int;
    let v7_1 = 0x32e3ee16442ae00d0ade6607de0a05957900e657e09c952e618a16c99985bcdaint;
    let e7_1 = lemma_mpow_double_next(b7, n, 1nat, b7, s7_1, v7_1);
    lemma_mpow_mul(g, 0x38352a56dddfc09f20982aae904e7840a4b909b3e0f7726c1f07c1f00000000nat, 0x3nat, n);
}

/// A power of seven modulo the order.
proof fn lemma_order_power_8()
    ensures
        mpow(0x7int, 0x148372280c67a051dc60598e3f511a152f3947b19fae74e300000000nat, modulus()) == 0x6a913e21dcd68e58f6f097f5895ea60fbb62b844065b1baf7b154ca52851ddf2int,
{
    let n = 0x73eda753299d7d483339d80809a1d80553bda402fffe5bfeffffffff00000001int;
    let g = 7int;
    lemma_order_power_2();
    let b8 = 0x68264c75cca37d89433b6355124715ad52f7c991c35dd35fec1b8eed3907cd10int;
    lemma_mpow_first(b8, n);
    let v8_1 = 0x737d73bdd3e2a2daed29f942451db67de71dddb0caf71bd72cef988545c0937dint;
    let e8_1 = lemma_mpow_double(b8, n, 1nat, b8, v8_1);
    let v8_2 = 0x1f6529cbfad060d2500d5a3ea51014146946dba0f97fb1fac3f9c9ce483acd38int;
    let e8_2 = lemma_mpow_double(b8, n, e8_1, v8_1, v8_2);
    let v8_3 = 0x3e4574e0e63b9e38ef5fe9a36cb176db2f27632d8934ded32500a0830c62a7f1int;
    let e8_3 = lemma_mpow_double(b8, n, e8_2, v8_2, v8_3);
    let v8_4 = 0x156113bc319d573cd0006a978f3df444d651967b4e9e75db0787312e43569323int;
    let e8_4 = lemma_mpow_double(b8, n, e8_3, v8_3, v8_4);
    let s8_5 = 0x29b5076c412a85c4a74ccb80d3bc992412be448d757ed0ddc68cf97078b62a2cint;
    let v8_5 = 0x5e5d04ee57fb866dab16137c436f01043aadefb4f00b0b7fbbdf97bb3bc13b64int;
    let e8_5 = lemma_mpow_double_next(b8, n, e8_4, v8_4, s8_5, v8_5);
    let v8_6 = 0x6a913e21dcd68e58f6f097f5895ea60fbb62b844065b1baf7b154ca52851ddf2int;
    let e8_6 = lemma_mpow_double(b8, n, e8_5, v8_5, v8_6);
    lemma_mpow_mul(g, 0x4f913eaadac83f4d0937a8f171b6b2bec6afa1b8b8f24180000000nat, 0x42nat, n);
}

/// A power of seven modulo the order.
proof fn lemma_order_power_9()
    ensures
        mpow(0x7int, 0x619fb553815c339b1da9f94a230f06c11e18f5e79434835d79435e500000000nat, modulus()) == 0x4b11569521af839931a5fb948d45c34bf87b7fc14f41215b554781951820e40eint,
{
    let n = 0x73eda753299d7d483339d80809a1d80553bda402fffe5bfeffffffff00000001int;
    let g = 7int;
    lemma_order_power_8();
    let b9 = 0x6a913e21dcd68e58f6f097f5895ea60fbb62b844065b1baf7b154ca52851ddf2int;
    lemma_mpow_first(b9, n);
    let v9_1 = 0x113799053dd53019d372af1189211d71fc4497833c32da3b20cdd511f02fe53dint;
    let e9_1 = lemma_mpow_double(b9, n, 1nat, b9, v9_1);
    let v9_2 = 0x64a0eaf1362ab3c135dadee57973bb1d5d1ccb17ca3b3120dad67513fe9e8e9int;
    let e9_2 = lemma_mpow_double(b9, n, e9_1, v9_1, v9_2);
    let s9_3 = 0x4962a9b141e8c824acef1071797f7c880df3ecec9ddb45a278e688d05354e5e0int;
    let v9_3 = 0x349a1d98d0eb517d43229a451f4fa5d831cdbbe031845bd0f3a1c8fa92155302int;
    let e9_3 = lemma_mpow_double_next(b9, n, e9_2, v9_2, s9_3, v9_3);
    let s9_4 = 0x15045e4d26bba71ea14a46587241649226a635ca6b5663f6b5aac3c127d0ffa1int;
    let v9_4 = 0x2a2a3b692db23b482f3b22579c63dc49d2fca4bbe02b66d913a6657e815b8517int;
    let e9_4 = lemma_mpow_double_next(b9, n, e9_3, v9_3, s9_4, v9_4);
    let v9_5 = 0x1cf58578902a5eda7006228ba5ff64091339bd05126fda31c34f6fe66232d3f2int;
    let e9_5 = lemma_mpow_double(b9, n, e9_4, v9_4, v9_5);
    let v9_6 = 0x14b3b4099d72605f2bd274550ba579fe0411e0545f87706cb227116b2d82aca2int;
    let e9_6 = lemma_mpow_double(b9, n, e9_5, v9_5, v9_6);
    let v9_7 = 0x5c6207c9922b3b5844e39af8193210de88f299e0650a886881de646962aba472int;
    let e9_7 = lemma_mpow_double(b9, n, e9_6, v9_6, v9_7);
    let v9_8 = 0x2ff130800a05393e54a2f028e1f32120dc3283908d7f9e5584788c94914218d7int;
    let e9_8 = lemma_mpow_double(b9, n, e9_7, v9_7, v9_8);
    let s9_9 = 0x3b62d4804685507257ef81fbc25a5335a68bc560a03db8c3c0297fae62a4a1cbint;
    let v9_9 = 0x5fdc6333b9ce11b535be44114fb03e65409b5786c709a34e030536d8c9104af3int;
    let e9_9 = lemma_mpow_double_next(b9, n, e9_8, v9_8, s9_9, v9_9);
    let v9_10 = 0x5fccb2e453e1a06c44126911bceceef8cef03c90d2836a6b99a4c7752b7b74f5int;
    let e9_10 = lemma_mpow_double(b9, n, e9_9, v9_9, v9_10);
    let v9_11 = 0x38186a8507be52bf75b1e59d6507a3b8b7663bf0d82e964bc9bbab1c6cccd645int;
    let e9_11 = lemma_mpow_double(b9, n, e9_10, v9_10, v9_11);
    let s9_12 = 0x28ed9e7d722fa21544c2fcd930bc1781393c0dcb8b69a8c4f902dbabde5e091int;
    let v9_12 = 0x58bf45b3787e6b3aef9b355d17704ff41df28c2bb7436ccea4cd566588a68fbcint;
    let e9_12 = lemma_mpow_double_next(b9, n, e9_11, v9_11, s9_12, v9_12);
    let v9_13 = 0x6d75f72cd1d734f1fbeefbbde530c2efcb82fab389a16d17e8fe7d58f99b8c06int;
    let e9_13 = lemma_mpow_double(b9, n, e9_12, v9_12, v9_13);
    let v9_14 = 0x19bd434ac314f2997dc2a729b5bde64e35140f6a239cb2309694ed6356ca92eaint;
    let e9_14 = lemma_mpow_double(b9, n, e9_13, v9_13, v9_14);
    let s9_15 = 0x21d04f21dc93605d6ee2702254c951ce5e8d15deac1657ff30a8bfd38cf1d578int;
    let v9_15 = 0x6d44ea3cc376135e14aaa5f8ea4c80802fbe8525a2ab28c206d4419a4f5cc213int;
    let e9_15 = lemma_mpow_double_next(b9, n, e9_14, v9_14, s9_15, v9_15);
    let s9_16 = 0x67951adf7cebbfba7fe6ba749f8e2f7c5d02ec783281642a9b1479e3bef162fbint;
    let v9_16 = 0x1ac18b7920892a2a70636894ff481ea0ba5d85fc4094c1ec0e6031b68888c18aint;
    let e9_16 = lemma_mpow_double_next(b9, n, e9_15, v9_15, s9_16, v9_16);
    let s9_17 = 0x3f2faafed841db5a337190a94c025aeeea57ad041f332eae6edc476d1ebe6cdbint;
    let v9_17 = 0x82f2ca035802f68becf10ed20751c4860f4b60b9996bac831182d9b1237da81int;
    let e9_17 = lemma_mpow_double_next(b9, n, e9_16, v9_16, s9_17, v9_17);
    let v9_18 = 0x3e85c0da1cf3aa74e5f4aa5d5a045e1d805282e1a57216826212ad8d7ac2c116int;
    let e9_18 = lemma_mpow_double(b9, n, e9_17, v9_17, v9_18);
    let s9_19 = 0x220d7c5c675ad57755365b54b518159e32268eeb47655d43ca4270a9e59a00eeint;
    let v9_19 = 0x526d2a4c1e44e3aa16837fd67777a4101107ce8a193e1a6e91d3ae1862fa3147int;
    let e9_19 = lemma_mpow_double_next(b9, n, e9_18, v9_18, s9_19, v9_19);
    let s9_20 = 0x61391e433e24a8ce9d86d8a9348c8c94f7ced54d46c1bc306212977c3196c1f2int;
    let v9_20 = 0x45b89d478b6af4a56b4f7b8e137cddedef275e58edc248e8e44b4600d53f6ee4int;
    let e9_20 = lemma_mpow_double_next(b9, n, e9_19, v9_19, s9_20, v9_20);
    let v9_21 = 0x32e4208d6806236f02340c5757aeef6ea9aa2131294283d7c8c3c7cd75e64e2aint;
    let e9_21 = lemma_mpow_double(b9, n, e9_20, v9_20, v9_21);
    let v9_22 = 0x72906cbaf5a88502cadfe5acf4823c2335ede01ab1d39af49ebec344bc13f06fint;
    let e9_22 = lemma_mpow_double(b9, n, e9_21, v9_21, v9_22);
    let s9_23 = 0x57da53cc0663939183997cd6870db9b1dc0894464fd1f6b50342c12042f42de4int;
    let v9_23 = 0x2b2269906fa03d09af0f65f1f3cad3a571387f9bee221c7d1a3c8f3aa6aad675int;
    let e9_23 = lemma_mpow_double_next(b9, n, e9_22, v9_22, s9_23, v9_23);
    let v9_24 = 0x69a2386308f9e1510381a4cfd78a8dba3b74202e733e6d6f1ef2e3d7d62e6debint;
    let e9_24 = lemma_mpow_double(b9, n, e9_23, v9_23, v9_24);
    let v9_25 = 0x6776e193795a84996a32cb876eb4e8066a858d39b7a2e80dc45dd5424a1bd373int;
    let e9_25 = lemma_mpow_double(b9, n, e9_24, v9_24, v9_25);
    let s9_26 = 0x3a678855df78af4c33832b2327e966f653ee2d39de2a7e81c0dd11eeba085f2eint;
    let v9_26 = 0x55b248fbf6e3b2a3c71e257cbca4fd53ff56a7bf98c9f678d63dcbfa657c694cint;
    let e9_26 = lemma_mpow_double_next(b9, n, e9_25, v9_25, s9_26, v9_26);
    let v9_27 = 0x6485ee26e16f89de72eb23b66f49bc1f0e155da98cd8930e359439ce2d8d026aint;
    let e9_27 = lemma_mpow_double(b9, n, e9_26, v9_26, v9_27);
    let s9_28 = 0x23e85c22459fd70830c570c1c13ec54b491b4b765eea94eaa7a2e9e7e7bd7c5fint;
    let v9_28 = 0x264481b8f11751d255877b3fab91e271a2f7fb192a1605b9e2f9d242ea99d1a2int;
    let e9_28 = lemma_mpow_double_next(b9, n, e9_27, v9_27, s9_28, v9_28);
    let s9_29 = 0x6df5d23f14fb8ee80705a2ec9a97ba084e7580d49374d6ab89105f7f704348d9int;
    let v9_29 = 0x474f557fe6f05881f0ddc2214ee089ea70a63d576cad968c459a4cc7b970eb03int;
    let e9_29 = lemma_mpow_double_next(b9, n, e9_28, v9_28, s9_29, v9_29);
    let s9_30 = 0xf825a8f3d644c660ad2d0cb87c5f30eb05a63023921d5639a655100374f7556int;
    let v9_30 = 0x4b11569521af839931a5fb948d45c34bf87b7fc14f41215b554781951820e40eint;
    let e9_30 = lemma_mpow_double_next(b9, n, e9_29, v9_29, s9_30, v9_30);
    lemma_mpow_mul(g, 0x148372280c67a051dc60598e3f511a152f3947b19fae74e300000000nat, 0x4c24ec97nat, n);
}

/// A power of seven modulo the order.
proof fn lemma_order_power_10()
    ensures
        mpow(0x7int, 0x185c178f8ebb0e6135b26a58eb304ef928140522ed9f2acd900000000nat, modulus()) == 0x2a2a3b692db23b482f3b22579c63dc49d2fca4bbe02b66d913a6657e815b8517int,
{
    let n = 0x73eda753299d7d483339d80809a1d80553bda402fffe5bfeffffffff00000001int;
    let g = 7int;
    lemma_order_power_8();
    let b10 = 0x6a913e21dcd68e58f6f097f5895ea60fbb62b844065b1baf7b154ca52851ddf2int;
    lemma_mpow_first(b10, n);
    let v10_1 = 0x113799053dd53019d372af1189211d71fc4497833c32da3b20cdd511f02fe53dint;
    let e10_1 = lemma_mpow_double(b10, n, 1nat, b10, v10_1);
    let v10_2 = 0x64a0eaf1362ab3c135dadee57973bb1d5d1ccb17ca3b3120dad67513fe9e8e9int;
    let e10_2 = lemma_mpow_double(b10, n, e10_1, v10_1, v10_2);
    let s10_3 = 0x4962a9b141e8c824acef1071797f7c880df3ecec9ddb45a278e688d05354e5e0int;
    let v10_3 = 0x349a1d98d0eb517d43229a451f4fa5d831cdbbe031845bd0f3a1c8fa92155302int;
    let e10_3 = lemma_mpow_double_next(b10, n, e10_2, v10_2, s10_3, v10_3);
    let s10_4 = 0x15045e4d26bba71ea14a46587241649226a635ca6b5663f6b5aac3c127d0ffa1int;
    let v10_4 = 0x2a2a3b692db23b482f3b22579c63dc49d2fca4bbe02b66d913a6657e815b8517int;
    let e10_4 = lemma_mpow_double_next(b10, n, e10_3, v10_3, s10_4, v10_4);
    lemma_mpow_mul(g, 0x148372280c67a051dc60598e3f511a152f3947b19fae74e300000000nat, 0x13nat, n);
}

/// A power of seven modulo the order.
proof fn lemma_order_power_11()
    ensures
        mpow(0x7int, 0x2ea88c64c8fb8b17f3d0bf3056626493bd62f0a299b16905017bf00000000nat, modulus()) == 0x1cba928b731970571e9595239f325fced6538e1240ff7965553667549739ebb9int,
{
    let n = 0x73eda753299d7d483339d80809a1d80553bda402fffe5bfeffffffff00000001int;
    let g = 7int;
    lemma_order_power_10();
    let b11 = 0x2a2a3b692db23b482f3b22579c63dc49d2fca4bbe02b66d913a6657e815b8517int;
    lemma_mpow_first(b11, n);
    let s11_1 = 0x1cf58578902a5eda7006228ba5ff64091339bd05126fda31c34f6fe66232d3f2int;
    let v11_1 = 0x1bf5d8c2ec5110c31579906e172335f7146f8db75ee91a5f0d275c1d73b1a664int;
    let e11_1 = lemma_mpow_double_next(b11, n, 1nat, b11, s11_1, v11_1);
    let s11_2 = 0x626d3b4e2839b79f274cda03cc8936dbb886fbb8622806fd70a5f98f06988ebbint;
    let v11_2 = 0xf67d2e6a2d40b67694404c38677b88305e813da28a85ef6536aa9c9471cd6beint;
    let e11_2 = lemma_mpow_double_next(b11, n, e11_1, v11_1, s11_2, v11_2);
    let s11_3 = 0x58e640982b82685576ab7c10f6324d80327aa4ef09abb60c519f486c5f259a22int;
    let v11_3 = 0x39b7f3d05bddef92c2f23ce0e194f5fcc1b870eed15c915d664703cfeb6662a5int;
    let e11_3 = lemma_mpow_double_next(b11, n, e11_2, v11_2, s11_3, v11_3);
    let v11_4 = 0x41af70076e4d69336fcce9713cc9d2a81a1d62f9974db7fd712fc19f2c8ee724int;
    let e11_4 = lemma_mpow_double(b11, n, e11_3, v11_3, v11_4);
    let s11_5 = 0x132671847ac9c8357428566e8d775c84b42a816e905cbcd4d6be8e148d1609feint;
    let v11_5 = 0x22b59399ffea0f94fcc39b5d58df4927a35f390d871da8dfdbb2e5b77878489aint;
    let e11_5 = lemma_mpow_double_next(b11, n, e11_4, v11_4, s11_5, v11_5);
    let v11_6 = 0x4da2b8850fa3db6a7aeb9d32a8bdbd2d2fde56e5b69ee17a08bc47e1c2829955int;
    let e11_6 = lemma_mpow_double(b11, n, e11_5, v11_5, v11_6);
    let s11_7 = 0x3da700143ba5e60c36f2c1e013f3af750d069c058ffa5af4667ae57a9abac295int;
    let v11_7 = 0x1845816b73f8ace798d68a65e74021a2ef4d8300b65ff0243026084549ce5fd6int;
    let e11_7 = lemma_mpow_double_next(b11, n, e11_6, v11_6, s11_7, v11_7);
    let v11_8 = 0x288d69f420efc952b4f3f551c4d96b995874c09eb870a2851fe9d60e00c8b619int;
    let e11_8 = lemma_mpow_double(b11, n, e11_7, v11_7, v11_8);
    let v11_9 = 0xf25b0b148c90fd5abe649951c09f425da4f2e910c45f480bc1663b82642b693int;
    let e11_9 = lemma_mpow_double(b11, n, e11_8, v11_8, v11_9);
    let s11_10 = 0x6e0bb5d3c0c88965015488724a139a4d0819e77fc40c47814aff960609f2de4dint;
    let v11_10 = 0x3a2ca9e6eb2930e37dabb7f05aa94ee06371d349644c0b1c9f98c0e4fe404cbeint;
    let e11_10 = lemma_mpow_double_next(b11, n, e11_9, v11_9, s11_10, v11_10);
    let v11_11 = 0x51c0b2f8f62606015f5ba168f11f5d8f3c528932a8229d90bbbe5b3032a2c285int;
    let e11_11 = lemma_mpow_double(b11, n, e11_10, v11_10, v11_11);
    let s11_12 = 0x2fa0dd141057b0a55aa37b072dbfb7dcb85539e9d00aed62f2c7a2d86bd634beint;
    let v11_12 = 0x21819531af22f71def5a9e45212ba687fb0449c505c07b4d4da3fd3a7dccf64int;
    let e11_12 = lemma_mpow_double_next(b11, n, e11_11, v11_11, s11_12, v11_12);
    let v11_13 = 0x1d1a37991968dc3f5b51e422a6265c2df7c13312383df794e5fc6ce15207fee9int;
    let e11_13 = lemma_mpow_double(b11, n, e11_12, v11_12, v11_13);
    let s11_14 = 0x48c9ed79af67232117d5fd8e505bfd12c32f90d0a43cedbbdd5fc3ad2bcbfdaint;
    let v11_14 = 0x4fd8e464ceea05656e7fc300fb2a00b1e5d014cf947e3019165862af68acf7b3int;
    let e11_14 = lemma_mpow_double_next(b11, n, e11_13, v11_13, s11_14, v11_14);
    let s11_15 = 0x659147cbbcca53eb6ffa3b1f42edd26099cc1d98d0b08326ea2d4345983f6b05int;
    let v11_15 = 0x436dd361b4ee316df48aad88b62d057143beb878473bb937e54d5a9de2a19764int;
    let e11_15 = lemma_mpow_double_next(b11, n, e11_14, v11_14, s11_15, v11_15);
    let s11_16 = 0xdd8bcdb0f21a18dfb587ca74b1cab7c77df3ee0821fa6744a4b8683114e76f4int;
    let v11_16 = 0x1cba928b731970571e9595239f325fced6538e1240ff7965553667549739ebb9int;
    let e11_16 = lemma_mpow_double_next(b11, n, e11_15, v11_15, s11_16, v11_16);
    lemma_mpow_mul(g, 0x185c178f8ebb0e6135b26a58eb304ef928140522ed9f2acd900000000nat, 0x1ea57nat, n);
}

/// A power of seven modulo the order.
proof fn lemma_order_power_12()
    ensures
        mpow(0x7int, 0x3c86504a1f91a36a677a9b5b8ddab737ef243e03188648495e9900000000nat, modulus()) == 0x3dd479f5454967ce0dcb2b172ac73d5ce93d58a856569621c247fb7ed7f91c4fint,
{
    let n = 0x73eda753299d7d483339d80809a1d80553bda402fffe5bfeffffffff00000001int;
    let g = 7int;
    lemma_order_power_10();
    let b12 = 0x2a2a3b692db23b482f3b22579c63dc49d2fca4bbe02b66d913a6657e815b8517int;
    lemma_mpow_first(b12, n);
    let v12_1 = 0x1cf58578902a5eda7006228ba5ff64091339bd05126fda31c34f6fe66232d3f2int;
    let e12_1 = lemma_mpow_double(b12, n, 1nat, b12, v12_1);
    let v12_2 = 0x14b3b4099d72605f2bd274550ba579fe0411e0545f87706cb227116b2d82aca2int;
    let e12_2 = lemma_mpow_double(b12, n, e12_1, v12_1, v12_2);
    let s12_3 = 0x5c6207c9922b3b5844e39af8193210de88f299e0650a886881de646962aba472int;
    let v12_3 = 0xcd942054215089670e281134c2aabd126688427b3eb9b85c428652fc7b2a3d8int;
    let e12_3 = lemma_mpow_double_next(b12, n, e12_2, v12_2, s12_3, v12_3);
    let s12_4 = 0x3d050f002daa20f4497cd9e0dee5a92fcd7c53dbcc56159bdfee982496f5c7b9int;
    let v12_4 = 0x60bce0906a9972af456e76e33cc9ba80bd5f387b7b6687bf54e84dc7e681bde1int;
    let e12_4 = lemma_mpow_double_next(b12, n, e12_3, v12_3, s12_4, v12_4);
    let s12_5 = 0x52ebf68cb0ecf0f64d802724564b9c7d29532622eadc7562f37e9df18516f647int;
    let v12_5 = 0x27162334aeb33f510e1afe89d502127298926c066a654db438488e1f5dac2f70int;
    let e12_5 = lemma_mpow_double_next(b12, n, e12_4, v12_4, s12_5, v12_5);
    let s12_6 = 0x4219617a7ca949131c4a06cc6c9445feab86960474095c9a316a723ea3483d1bint;
    let v12_6 = 0x68a07f47492b09fbddbfa15c03f599431945c2dbbe7864cbbcc3a48bfc7caa5aint;
    let e12_6 = lemma_mpow_double_next(b12, n, e12_5, v12_5, s12_6, v12_6);
    let s12_7 = 0x205e5347b68fd33179a1cebb9b0aeb818fe0d81ca329fecae26207d974bd3f77int;
    let v12_7 = 0x24e2623a120345c7e5ac79925b5c02e639e5391f709033023d1a774e8f3df02int;
    let e12_7 = lemma_mpow_double_next(b12, n, e12_6, v12_6, s12_7, v12_7);
    let v12_8 = 0x211d77796f232c9efe6f88e797c8e4af2a7f0253c64da6bdd65c34a935fc00a6int;
    let e12_8 = lemma_mpow_double(b12, n, e12_7, v12_7, v12_8);
    let v12_9 = 0x264385832730263db4d4035de91ff00fc758b875cace6783b121d4fba1bf827bint;
    let e12_9 = lemma_mpow_double(b12, n, e12_8, v12_8, v12_9);
    let v12_10 = 0x3f389392f49bd5803bfb3d6c1c6aeb6fc741fe7c907f1432223ce9c5e275d0a2int;
    let e12_10 = lemma_mpow_double(b12, n, e12_9, v12_9, v12_10);
    let v12_11 = 0x697f109d7dff8f4398fc7c20f254c19e26e98ecd2b6b32728af84b68823260beint;
    let e12_11 = lemma_mpow_double(b12, n, e12_10, v12_10, v12_11);
    let v12_12 = 0x6e9ec764723e7edde692a81292f68da0b5eb63b285d1f6bf5b16cf47f60e7098int;
    let e12_12 = lemma_mpow_double(b12, n, e12_11, v12_11, v12_12);
    let s12_13 = 0x652a92c64adbd16cbb368949d44e83e27d7dec49bf1f8b258d53ffb1859f0cddint;
    let v12_13 = 0x3dd479f5454967ce0dcb2b172ac73d5ce93d58a856569621c247fb7ed7f91c4fint;
    let e12_13 = lemma_mpow_double_next(b12, n, e12_12, v12_12, s12_13, v12_13);
    lemma_mpow_mul(g, 0x185c178f8ebb0e6135b26a58eb304ef928140522ed9f2acd900000000nat, 0x27c1nat, n);
}

/// A power of seven modulo the order.
proof fn lemma_order_power_13()
    ensures
        mpow(0x7int, 0x98fc71ed18308f7e6f75d500000000nat, modulus()) == 0x3f32dc4eca018cba2efdc5414bfd7ac6f8656d6e5d7548bb2e0ae459520fd292int,
{
    let n = 0x73eda753299d7d483339d80809a1d80553bda402fffe5bfeffffffff00000001int;
    let g = 7int;
    lemma_order_power_1();
    let b13 = 0x36fb34ca1cf1bdf3cfcae97d3d3292f63e19c2f2cf2ab065378f4171e23ad3a2int;
    lemma_mpow_first(b13, n);
    let v13_1 = 0x4251124e16f712ac26f2b25a73c71a62432da1a7d0ead4246b64905402ff78baint;
    let e13_1 = lemma_mpow_double(b13, n, 1nat, b13, v13_1);
    let s13_2 = 0x3ba4f5ae6d6af8788251faac796c0ba9b511b861866bacca20c4f6dec8c749e3int;
    let v13_2 = 0x16a8feb6d39da5f038c61a17899ddec15720c132c8a4960298be07baa08bd7f4int;
    let e13_2 = lemma_mpow_double_next(b13, n, e13_1, v13_1, s13_2, v13_2);
    let s13_3 = 0x3bfa93966816de2d809a6ceb64d87da29117dbc45b276a082b619c378d3cb2ddint;
    let v13_3 = 0x3f13c4131457fd035ded873d16c4bde29b6fa0f7b1103e937db012ac84390486int;
    let e13_3 = lemma_mpow_double_next(b13, n, e13_2, v13_2, s13_3, v13_3);
    let s13_4 = 0x1133ecf9a8fa3a40d6233b7b99e38acb73c6ee79af80acff81da847c0866facbint;
    let v13_4 = 0x3df26093e0ff416d628682ccce60931e50477c042e8ad54016307ebef0757a0cint;
    let e13_4 = lemma_mpow_double_next(b13, n, e13_3, v13_3, s13_4, v13_4);
    let v13_5 = 0x12f8fad47eeca1fc6d548532c80fb77d845e9389723e68cef2cd8a1c8655efb9int;
    let e13_5 = lemma_mpow_double(b13, n, e13_4, v13_4, v13_5);
    let s13_6 = 0x18ee75ec2b2b751d14e7d08f520e78fcd6439cb6e06c8b1a32bda100d0230525int;
    let v13_6 = 0x85bb9f086d14a0ef99663df36c8b8e972f765445749666b1bb846719ccad571int;
    let e13_6 = lemma_mpow_double_next(b13, n, e13_5, v13_5, s13_6, v13_6);
    let v13_7 = 0x3cface116f71a0a85f0d14ffe4fbe6577ea4646d253490073e70fb8a173e18f5int;
    let e13_7 = lemma_mpow_double(b13, n, e13_6, v13_6, v13_7);
    let v13_8 = 0x15a6894044682a543d101caae5d85c2e78849b465929e796cf9294a8683316c6int;
    let e13_8 = lemma_mpow_double(b13, n, e13_7, v13_7, v13_8);
    let s13_9 = 0x7b07c1359e0a6e194fb1df2fc80c238c91e9883cc8cbacf3823dff4cfdc3ae0int;
    let v13_9 = 0x3fd61458a0a75a8323fb8348772fe594623023e6ede518ea9d1faf51f9ac3975int;
    let e13_9 = lemma_mpow_double_next(b13, n, e13_8, v13_8, s13_9, v13_9);
    let s13_10 = 0x55e3ba48ce7b4a243e5e0540df43b625cb0f8ec77c94be9e92870d7bd13e0c80int;
    let v13_10 = 0x3d73da6e050ad2f703f499c691f2ed22fb80bf1adea7d6c0d5270ec0b2918fbaint;
    let e13_10 = lemma_mpow_double_next(b13, n, e13_9, v13_9, s13_10, v13_10);
    let s13_11 = 0x42aa24493415397fc721afe9eadf91b2a55080fff2f468744df6e566ce7b9387int;
    let v13_11 = 0x3ebda40ba9139e2513a75a43240cf30a0cb2c8da14f574d4f9dae8d02db2e128int;
    let e13_11 = lemma_mpow_double_next(b13, n, e13_10, v13_10, s13_11, v13_11);
    let s13_12 = 0x618b1c3a1347a3b3aa92949b9147afdae6610a21569bcf9e8c3f606e18218f41int;
    let v13_12 = 0x37c48de298de89f274b80b3c6d3bde97b914f370eba0e8600e124b24354f7262int;
    let e13_12 = lemma_mpow_double_next(b13, n, e13_11, v13_11, s13_12, v13_12);
    let s13_13 = 0x408730e70cd1ee7a827cb42edd13980bfe60bb16ad40b58a8b979ce9b13aafb8int;
    let v13_13 = 0x1e151da34091cc275382db2dd4a3621296c5f44157fa7be1be0f374286c9fdc2int;
    let e13_13 = lemma_mpow_double_next(b13, n, e13_12, v13_12, s13_13, v13_13);
    let s13_14 = 0x14a09bd55fdd675e5191b333bfc9de9a9be50d0d4382e82dd34964436747e113int;
    let v13_14 = 0x5f3d079ca50247a2c77f776ec5d0301456bbbe4435adeea9833eb1d700f6a633int;
    let e13_14 = lemma_mpow_double_next(b13, n, e13_13, v13_13, s13_14, v13_14);
    let v13_15 = 0x503d8089bb409c31b80baf7d0fc54495eaaa87b4b5f79d9a45b317449e43d17bint;
    let e13_15 = lemma_mpow_double(b13, n, e13_14, v13_14, v13_15);
    let v13_16 = 0x1eb6d629eb42ddbe8bb052d65ba1017841df0f31f78c0d92e724e587cf123d1dint;
    let e13_16 = lemma_mpow_double(b13, n, e13_15, v13_15, v13_16);
    let s13_17 = 0x366f12d30e8a2d3faf4687be7c81e55a991b39214ae8e7f56b11d51a52d2ae1aint;
    let v13_17 = 0x1a576f2d7dfefa2f685d4991a0d86134c4f14ee22a31561baaadc5250943be4cint;
    let e13_17 = lemma_mpow_double_next(b13, n, e13_16, v13_16, s13_17, v13_17);
    let s13_18 = 0xfff135c70d8358c8d733b3268b307db6609a304009089639eb70b919724333int;
    let v13_18 = 0x22fa991c1433414220edeaac3ea885ac8ecf01db7601d14052dace57d30fc269int;
    let e13_18 = lemma_mpow_double_next(b13, n, e13_17, v13_17, s13_18, v13_18);
    let v13_19 = 0x17505c9c4eeed28043e30644ab8a06ee99f147b9b1f12a50e82cf4f58c1f6cdbint;
    let e13_19 = lemma_mpow_double(b13, n, e13_18, v13_18, v13_19);
    let s13_20 = 0x47df62c570826bf6e80749380d92f82fb20954c540b7dce337db97df786d5302int;
    let v13_20 = 0x22b007c066ab16bdb7c43f37dc999ecbd1351c5322d0b6cfd9569b0d44c43e9eint;
    let e13_20 = lemma_mpow_double_next(b13, n, e13_19, v13_19, s13_20, v13_20);
    let s13_21 = 0x62d072f0d81e74889c448e4e808bef0b54286d6d0ae335e48706479c86dcc841int;
    let v13_21 = 0x6ae80fdf47081dca8d0667c7be44763ade7ecd13364b4134c715c2d29d950269int;
    let e13_21 = lemma_mpow_double_next(b13, n, e13_20, v13_20, s13_21, v13_21);
    let s13_22 = 0x1e22c2ff4e7082ada03f1c9e4b2f14d1e1e6d07364b830ccc18fafb397deb4e5int;
    let v13_22 = 0x491706671eac9e279118ca28fa705c4304b10615d4be3f26b290f2523af466c4int;
    let e13_22 = lemma_mpow_double_next(b13, n, e13_21, v13_21, s13_22, v13_22);
    let s13_23 = 0x51da6318f0d212a684688fd386de4e85b215e045dc21d93b639c5486cb49e29fint;
    let v13_23 = 0x59b9ffb403d61c770f87b26a6af0a6157a68c2df95cea490bce00cf2b6f9982int;
    let e13_23 = lemma_mpow_double_next(b13, n, e13_22, v13_22, s13_23, v13_23);
    let v13_24 = 0x1cd2b62f92ce48b25d97ab03fa2e5a52346cbaa27e59b535ade71e7bd65df1b1int;
    let e13_24 = lemma_mpow_double(b13, n, e13_23, v13_23, v13_24);
    let s13_25 = 0x59d07888f35ac73e172de39f54210b0212109c854fb2613c0b61e95b6bea4e1cint;
    let v13_25 = 0x30c1b4f4aac381da94c7b01feb732aefdf41dfdd3e57d3aeb91356b8623f46ebint;
    let e13_25 = lemma_mpow_double_next(b13, n, e13_24, v13_24, s13_25, v13_25);
    let s13_26 = 0x712c28d9608fc2c6c3445bf17977ba6fb648836ef32237db769971cd473aa24int;
    let v13_26 = 0x2f83fdbe14eb493fd7d28b4383e279ddcbe3cb4d7059b111aa387ae6cac1f842int;
    let e13_26 = lemma_mpow_double_next(b13, n, e13_25, v13_25, s13_26, v13_26);
    let s13_27 = 0xa053fd2fc83a59f4f3093540c3b357de2005bce22141654b6f7d683cd35f5ffint;
    let v13_27 = 0x68de2d342dcce31a8dca043929e8fb5b9f6f36cbc68d53cd1a51981453740a37int;
    let e13_27 = lemma_mpow_double_next(b13, n, e13_26, v13_26, s13_27, v13_27);
    let v13_28 = 0x44b3f3db61dc8d4503bcdcf34416eb3990bc860d6ca982cd67d46fb708235410int;
    let e13_28 = lemma_mpow_double(b13, n, e13_27, v13_27, v13_28);
    let s13_29 = 0x5515807ce7e59edbbec5ae790896d6b40e0ef7e3c4695cfca993561b19c9e1e1int;
    let v13_29 = 0x40a1c29cace54c75e0d01173774f86fdb62d504c51c69bd917a1c807a200efc0int;
    let e13_29 = lemma_mpow_double_next(b13, n, e13_28, v13_28, s13_29, v13_29);
    let v13_30 = 0x1dda481b16d62bd3be68542fa29c9640772c40947b893ccb89e46a7e8f40aff3int;
    let e13_30 = lemma_mpow_double(b13, n, e13_29, v13_29, v13_30);
    let s13_31 = 0x1d75de99eeb9868e6d1c88f87bff5d02b49974664031abb84a481e6541fdf618int;
    let v13_31 = 0x3f715841324d1d11fda1b1672d258fa0e22d49a2c84d3d00c5321efc199dcb5eint;
    let e13_31 = lemma_mpow_double_next(b13, n, e13_30, v13_30, s13_31, v13_31);
    let s13_32 = 0x58710787032aa7791bc23d9441cc84ebfe0cf71ac8246c15c81dda2a267e6be8int;
    let v13_32 = 0x44db3506e4ec98b36b618b82ca85552df8179b4f78c48f2a41287b7ce45bf00aint;
    let e13_32 = lemma_mpow_double_next(b13, n, e13_31, v13_31, s13_32, v13_32);
    let s13_33 = 0x500d8f2334d7d138ce9af723679a0f8df06a3a423a3b3e591864840e95171b0aint;
    let v13_33 = 0x4883a8ad5d13bf98b885966378b3b9070122a8b4e3a12e39e4c82d3435e7e498int;
    let e13_33 = lemma_mpow_double_next(b13, n, e13_32, v13_32, s13_33, v13_33);
    let v13_34 = 0x258e4c8fe66068c2431f67d4e90c037f067480792c9087d2c0a86f8b93996e65int;
    let e13_34 = lemma_mpow_double(b13, n, e13_33, v13_33, v13_34);
    let s13_35 = 0x4001bca5da8bc15a37d9c0f308ddfc23709e9789cbef146558282a442adbc301int;
    let v13_35 = 0x39729d19f41d5ca3f57e52e83b2d6b70db55ed6dfb6392c941aaa4be2e65bd79int;
    let e13_35 = lemma_mpow_double_next(b13, n, e13_34, v13_34, s13_35, v13_35);
    let v13_36 = 0x5a54076c57812b31770aeabfdd5820bb01415747f24a291457024d274127f6bfint;
    let e13_36 = lemma_mpow_double(b13, n, e13_35, v13_35, v13_36);
    let s13_37 = 0x6243a3d1dd661c1df699142ea05c742e6cd27781ab6a272a5fcd4eac8afde5f3int;
    let v13_37 = 0x212f81764506276321410fda14335deabf34bbfc484427059c4ab92abd70492cint;
    let e13_37 = lemma_mpow_double_next(b13, n, e13_36, v13_36, s13_37, v13_37);
    let v13_38 = 0x1b2e5dbbc8199923841ef0eecd3aa5a4398828d09d2eec1d51bc0292b3af987bint;
    let e13_38 = lemma_mpow_double(b13, n, e13_37, v13_37, v13_38);
    let s13_39 = 0x50c38c8360926152c09751bbbcf0065f157b683fa95263df3f048c71c6e0c2e3int;
    let v13_39 = 0x1858ca1d30f0e6f4ee4396bdcd44367c635d5b8ee2a7dee395cab311a22a615aint;
    let e13_39 = lemma_mpow_double_next(b13, n, e13_38, v13_38, s13_39, v13_39);
    let v13_40 = 0x3f32dc4eca018cba2efdc5414bfd7ac6f8656d6e5d7548bb2e0ae459520fd292int;
    let e13_40 = lemma_mpow_double(b13, n, e13_39, v13_39, v13_40);
    lemma_mpow_mul(g, 0x69008000000080000000nat, 0x174fcdeebaanat, n);
}

/// A power of seven modulo the order.
proof fn lemma_order_power_14()
    ensures
        mpow(0x7int, 0x446ae342e3472f9bca117eba67da01f27ca4ae01100000000nat, modulus()) == 0x17268da3e5c223bad7135955dfaaaef76a38e0d4c2f2dc79b52549c45477d044int,
{
    let n = 0x73eda753299d7d483339d80809a1d80553bda402fffe5bfeffffffff00000001int;
    let g = 7int;
    lemma_order_power_13();
    let b14 = 0x3f32dc4eca018cba2efdc5414bfd7ac6f8656d6e5d7548bb2e0ae459520fd292int;
    lemma_mpow_first(b14, n);
    let s14_1 = 0x1487eaa12aa4bfada856302b5e5d820819b22e2b1b26af6b778b59c724caad26int;
    let v14_1 = 0x2513a33f963abd95d19bcb13a0663cff45a54fe33ad312114bc0c0e94877ef20int;
    let e14_1 = lemma_mpow_double_next(b14, n, 1nat, b14, s14_1, v14_1);
    let s14_2 = 0x549b40f20cea6ab0bccb94ee5eef710e838208fd4a1985ddd5be3c24334bf314int;
    let v14_2 = 0x4436c0d568840278ccbc92186d730786f5f803932424e49c32979e871931689aint;
    let e14_2 = lemma_mpow_double_next(b14, n, e14_1, v14_1, s14_2, v14_2);
    let v14_3 = 0x71ba263d2d17951cb7dfcf8f7c440efe414cafa25d3d4f0e10de8764fa2e86f8int;
    let e14_3 = lemma_mpow_double(b14, n, e14_2, v14_2, v14_3);
    let v14_4 = 0x4b3872d121e0525b0edacfcad569de0d6ff8744bdc8ca3a7b6405528fa8d5af4int;
    let e14_4 = lemma_mpow_double(b14, n, e14_3, v14_3, v14_4);
    let s14_5 = 0x13cf377f3900000e3b18e7e62cd16e9bd5f5fdda14eebfb2a37c0d1714701a07int;
    let v14_5 = 0x4d35f3e99c8242807007de48354b908abd22c16a112468d22ef6491a47eaa9aint;
    let e14_5 = lemma_mpow_double_next(b14, n, e14_4, v14_4, s14_5, v14_5);
    let v14_6 = 0x59cda240b8a37a639cda9dd8e3815dd2c479d245f777e3939bef41b052fb94c2int;
    let e14_6 = lemma_mpow_double(b14, n, e14_5, v14_5, v14_6);
    let v14_7 = 0x54b795b7b472cafc1c2c14403bcaca2bf4eef271860cf97d9693cca0fb3c6ae2int;
    let e14_7 = lemma_mpow_double(b14, n, e14_6, v14_6, v14_7);
    let s14_8 = 0x6ec936c0ac9ec03c6f6b6a8cc35fb2dd0b4b108bdec0a64763b960d3d623536dint;
    let v14_8 = 0x6e9c47a4ca81d4bfb65b859da6307b6981014e702b6e545984776b66cf4e3a15int;
    let e14_8 = lemma_mpow_double_next(b14, n, e14_7, v14_7, s14_8, v14_8);
    let s14_9 = 0x25a58ab0688a02b84443b7b90113d6054783cfeb2c253abad2975738fe010b2int;
    let v14_9 = 0xb95ba54b914cfe20575c761cb0ae58cf8290996f0168a16b3d2379f11d69fecint;
    let e14_9 = lemma_mpow_double_next(b14, n, e14_8, v14_8, s14_9, v14_9);
    let s14_10 = 0x3d2710fd2884a24d45b7df2e1f45712862c47d515eb294c0c3fdf0932cbcafe8int;
    let v14_10 = 0x63c035454585931f5b748f8421aee57c54ebdb43fd28340739e67a956a8b8ed2int;
    let e14_10 = lemma_mpow_double_next(b14, n, e14_9, v14_9, s14_10, v14_10);
    let s14_11 = 0x482349b46b6c8c99174ade681bc34a3e30bcb0932d425a0cb8c819f4b7fd6168int;
    let v14_11 = 0x3dfb907fda6e6304360bbf8b87e45fc49753b0d7c89790143ad1e7b0788cb225int;
    let e14_11 = lemma_mpow_double_next(b14, n, e14_10, v14_10, s14_11, v14_11);
    let s14_12 = 0x2803b46c91adccbac85a0b96419980772ddba894762f099c045265a436179faaint;
    let v14_12 = 0x246d227eb0d0c9708339f9d01a6e3f1db124c03485e1702314cdcbfb9a1b7257int;
    let e14_12 = lemma_mpow_double_next(b14, n, e14_11, v14_11, s14_12, v14_12);
    let v14_13 = 0x3864391635999b327ffa4ae79cdcf9ab6eda62e6da5817f0244b0ab7a33971c8int;
    let e14_13 = lemma_mpow_double(b14, n, e14_12, v14_12, v14_13);
    let v14_14 = 0x4d39cd21a51de19fac4ca36dc5ecde8c01dbbe93db5d952a3c4161c52d37334dint;
    let e14_14 = lemma_mpow_double(b14, n, e14_13, v14_13, v14_14);
    let s14_15 = 0x5329bb6307db3be7a1e531e8ecdd6ddf1fbf9cf74e4d82c2cfb3ef81c47b84a5int;
    let v14_15 = 0x37b71725d1e91c316aad04da9da7efa27a9db86d67f31b3ed95f145ace51b3aeint;
    let e14_15 = lemma_mpow_double_next(b14, n, e14_14, v14_14, s14_15, v14_15);
    let v14_16 = 0x8938c1cd79caac0626d5da3f1ea93e73e24a02f4d435da12ea499861083b3ccint;
    let e14_16 = lemma_mpow_double(b14, n, e14_15, v14_15, v14_16);
    let v14_17 = 0x407f9c3307034d8d8f96b73d68b14d6f38a1883cf4fd84957f39977854792076int;
    let e14_17 = lemma_mpow_double(b14, n, e14_16, v14_16, v14_17);
    let s14_18 = 0x1566092e55eb868b9a9af8331f9a068aa69589244e7d97dc6ff1a9997a68d887int;
    let v14_18 = 0x6eb6d77e3a168b06f368788cbc66a18d86923500b0f62bf26f300eee67440463int;
    let e14_18 = lemma_mpow_double_next(b14, n, e14_17, v14_17, s14_18, v14_18);
    let s14_19 = 0x20d1a81541ea383bd5929944f48ebdf48afb1f035fac44c5d54ce80b902aad47int;
    let v14_19 = 0x680b61134dd42cf422737d9f510a1a9ba2451fb4a8c6d732e5a0f5302777a6a6int;
    let e14_19 = lemma_mpow_double_next(b14, n, e14_18, v14_18, s14_19, v14_19);
    let s14_20 = 0x4cbadc7f6899b781d00230f1b34ad8413e930cf6ef5f95dd0b9c591c2cd49cedint;
    let v14_20 = 0x5792e51173ecca83e93a11f9054eeefb39ae3d356afe4c120ee4999c5a31cfb4int;
    let e14_20 = lemma_mpow_double_next(b14, n, e14_19, v14_19, s14_20, v14_20);
    let v14_21 = 0x49350484e419cc144fff8166b42cb1d0b85f118e04fd0f644c216cd5ca94e52eint;
    let e14_21 = lemma_mpow_double(b14, n, e14_20, v14_20, v14_21);
    let s14_22 = 0x16f1e4d30078d65c4f48638798d7113ef4e9348c9b3166eec2375ed3c30c37a1int;
    let v14_22 = 0x6f93e8cd2ace4ad9e35ce1749295581c68d1826428f25a145acab6ef05197071int;
    let e14_22 = lemma_mpow_double_next(b14, n, e14_21, v14_21, s14_22, v14_22);
    let s14_23 = 0x70c4ec777c27a1e67eed1e24e87ea24dda356133713b64996c14a9263f7afadint;
    let v14_23 = 0x286ecd21f26b8733807d8a8c68890fc9c2732356c3f0821935762eb541814130int;
    let e14_23 = lemma_mpow_double_next(b14, n, e14_22, v14_22, s14_23, v14_23);
    let v14_24 = 0x3c11adeebf300b7b9ea14191a9c22f6d55ceebc13ae9956043d2d570e7435fa8int;
    let e14_24 = lemma_mpow_double(b14, n, e14_23, v14_23, v14_24);
    let s14_25 = 0x22afac42f3f0031c924b32cf987a52a7a347f8a9d9b534bd5076216638ad45ffint;
    let v14_25 = 0x22d8c290c4d1fbbad6a199f56ec45ac1c7c51b45bfceb32990d097f20fc4c8fcint;
    let e14_25 = lemma_mpow_double_next(b14, n, e14_24, v14_24, s14_25, v14_25);
    let s14_26 = 0x382d743fd3d8eb10570afcf9a3196f069be09c748e04ce2aa40041f7ad663f2aint;
    let v14_26 = 0x45e6ffa46455a95a2e5c220f6ceed00caa77452cfcaa241181e7ab0f1dd96b98int;
    let e14_26 = lemma_mpow_double_next(b14, n, e14_25, v14_25, s14_26, v14_26);
    let v14_27 = 0x68f42d03817fb5e401225ada8ebe4f069337d0139cec798be5c404f669f36f54int;
    let e14_27 = lemma_mpow_double(b14, n, e14_26, v14_26, v14_27);
    let s14_28 = 0x6f1721da26dc9053515b0ca896142bea29d6140c2b323476f379c8c701cdcb47int;
    let v14_28 = 0x3444b46d8e9598d56e0e60035735f80766a302a14c358507b569b54bf2b39562int;
    let e14_28 = lemma_mpow_double_next(b14, n, e14_27, v14_27, s14_28, v14_28);
    let s14_29 = 0x313f73dc4b4feea7ab06c437c54674c0badd05d8c8f167816c75ff5d906bef2eint;
    let v14_29 = 0x178f1b926829701f4d4d686449013b966852a67f429c444959f427599cb82910int;
    let e14_29 = lemma_mpow_double_next(b14, n, e14_28, v14_28, s14_29, v14_29);
    let v14_30 = 0x54b07b06e0a2fd3be8e2967bf71c3d1e5ee83638ffaee1d3ccd583e64f1804f2int;
    let e14_30 = lemma_mpow_double(b14, n, e14_29, v14_29, v14_30);
    let s14_31 = 0x5db7d3fb24424ec1a97ad0008bd19fbb6d766d923f0f76cbc8ede9f7cadd45abint;
    let v14_31 = 0x2236d834fae0005ed865cd9ab81362685e67400b31ca9165731b752f6308a6cfint;
    let e14_31 = lemma_mpow_double_next(b14, n, e14_30, v14_30, s14_31, v14_31);
    let s14_32 = 0x574aa3a7e199c0a8af165ab269a26f70fb3285ca9339b210190db6d633dcd6f1int;
    let v14_32 = 0x4505abaf8b3445747441c8429f8114d52192bdad3535c514dfc6cc41354b3d7dint;
    let e14_32 = lemma_mpow_double_next(b14, n, e14_31, v14_31, s14_32, v14_32);
    let s14_33 = 0x5a67b557883e497366053798748c1081c9d8ac2ce48dd015f2b1c64dc2c2f652int;
    let v14_33 = 0x4b1064f579fd9c2b44b2c3212b92b52ea1839b27687d9f71c2d45cc686a186fdint;
    let e14_33 = lemma_mpow_double_next(b14, n, e14_32, v14_32, s14_33, v14_33);
    let v14_34 = 0x3dacc8952dec851d1c24b50b857bb0a583788e83ed78609a6e5ac965630dff04int;
    let e14_34 = lemma_mpow_double(b14, n, e14_33, v14_33, v14_34);
    let v14_35 = 0x435098db4b1f6c9d8fb942124bc7d172a1c682fe1439804f3603ac97194fee19int;
    let e14_35 = lemma_mpow_double(b14, n, e14_34, v14_34, v14_35);
    let s14_36 = 0x1bbea23a1c69dc82ce10b18ed9ad4888ae7b1106c57fbe33779ec9673b012b4aint;
    let v14_36 = 0x693fb18a0a8c9c7731cdd9c986ba8e1e0f16256503937179517c1c7014d1035bint;
    let e14_36 = lemma_mpow_double_next(b14, n, e14_35, v14_35, s14_36, v14_36);
    let s14_37 = 0x4df26e2d991ec5c1ff7de4ef36c8b39f5e6aac8753c644272bf604c9cdf91515int;
    let v14_37 = 0x3951d26ae06078b0719b06e91d77728557ca5962a47e72468d326149a14f46bint;
    let e14_37 = lemma_mpow_double_next(b14, n, e14_36, v14_36, s14_37, v14_37);
    let s14_38 = 0x1eb466be32711e4e86b1491946088876a2c959f392cc0d2ceaa6c10515ffe5c6int;
    let v14_38 = 0xde382ef90269718f80f0da19d2223a73dd824da1597561ea909c72cb1224d1aint;
    let e14_38 = lemma_mpow_double_next(b14, n, e14_37, v14_37, s14_38, v14_38);
    let v14_39 = 0x629eb160c6a0bd476108d454f636ad7e92964d494a6bee92ad9867a709dfad66int;
    let e14_39 = lemma_mpow_double(b14, n, e14_38, v14_38, v14_39);
    let s14_40 = 0x2e4871d48c21ca8e8b510da7e385248f732bfc13d39c3393fb3b2d4ebd5fef5dint;
    let v14_40 = 0x53ab5de936dfeb9f30730dcf7cca7732b82eb8d5970b0d1b8958ab5311eebcc3int;
    let e14_40 = lemma_mpow_double_next(b14, n, e14_39, v14_39, s14_40, v14_40);
    let s14_41 = 0x392f9a061b33213c0aa93b2ca5569040a1e445f3c81ea21082b614c33ac931bcint;
    let v14_41 = 0x2b139011766e69ab1ff5fb3e4abfd4d1bbaf8025856da91836b3fa673105ed74int;
    let e14_41 = lemma_mpow_double_next(b14, n, e14_40, v14_40, s14_41, v14_41);
    let s14_42 = 0x50e64296c6213a5ed332e673d196f91725e56a59ecfa5163d6c9f619b2542078int;
    let v14_42 = 0x4ef145f5c79601fd4d13cf1c0e905ba566323c2168e5146cfb91d5cac46a79f3int;
    let e14_42 = lemma_mpow_double_next(b14, n, e14_41, v14_41, s14_42, v14_42);
    let v14_43 = 0x54817ebcc0248b707fe92eded050e04677a38edb8b1d16921a37ae4e8e3a5bint;
    let e14_43 = lemma_mpow_double(b14, n, e14_42, v14_42, v14_43);
    let s14_44 = 0x7009b569c498f4027241bed9b811c8990ceb5efc9339357db221db6c1c8e6808int;
    let v14_44 = 0x72d72b4878d5e9868bebe2eeb88f3a839c1de42daa99758fa473a5f8682e33e7int;
    let e14_44 = lemma_mpow_double_next(b14, n, e14_43, v14_43, s14_44, v14_44);
    let s14_45 = 0x11a7ed3d6c61e35d4655cb7cc8dd9ff85fb8eae45b9c5e120025c86bae598d50int;
    let v14_45 = 0x31942d04d5c7def0fc09f7c750e4702e5961ccf0474f78732bc00048e2529ecint;
    let e14_45 = lemma_mpow_double_next(b14, n, e14_44, v14_44, s14_45, v14_45);
    let v14_46 = 0x587bf3bc0b6955a0232bbbcac723c2d37a2c6f0297be67841da6176cb5f827aaint;
    let e14_46 = lemma_mpow_double(b14, n, e14_45, v14_45, v14_46);
    let v14_47 = 0x53b1860902b40829da24e691d35d321b7933014dfc38c6b010a886c33d8a16b7int;
    let e14_47 = lemma_mpow_double(b14, n, e14_46, v14_46, v14_47);
    let v14_48 = 0x2f4440883fcc4e11e7adb1d09adaec15ed8982543bf9ebd6a797aa0531ff33adint;
    let e14_48 = lemma_mpow_double(b14, n, e14_47, v14_47, v14_48);
    let s14_49 = 0x4ffc3efe30ae6443322e6bddee1df8b4bbc16d7a8fbb81507f19f5574c35118eint;
    let v14_49 = 0x306ef3c8c4dbdb06522f569c33b768a6024f6497ee3642428cb5c64bb69666d3int;
    let e14_49 = lemma_mpow_double_next(b14, n, e14_48, v14_48, s14_49, v14_49);
    let s14_50 = 0x2e681ce4c279988cd8282539bf8cf5b8dfe072c517acc7822d5d96f345043c81int;
    let v14_50 = 0x2cec4672687c7cb38608c769942a253be156f148212644b0fccffaba98442b80int;
    let e14_50 = lemma_mpow_double_next(b14, n, e14_49, v14_49, s14_50, v14_50);
    let s14_51 = 0xffd769bb03988be4b0b22ca3df172276637803cce13069159cd0cc8a9eb00afint;
    let v14_51 = 0x8f47235e52440496802164245cb688c0e6b54938fefa00352068ca3b7a8007eint;
    let e14_51 = lemma_mpow_double_next(b14, n, e14_50, v14_50, s14_51, v14_51);
    let v14_52 = 0x6aa198131641b33dcf16ce422990788980656c30180775bfeb1a011178a4b397int;
    let e14_52 = lemma_mpow_double(b14, n, e14_51, v14_51, v14_52);
    let v14_53 = 0x5bb0fda20f9eed29c98a205bfd4dfc93b74a075d217534e8b4119b4467d621c8int;
    let e14_53 = lemma_mpow_double(b14, n, e14_52, v14_52, v14_53);
    let s14_54 = 0x2d7beeb3222050c7063b2e3bf1dca32ecf628b93b7ba103bbd3ed2983599797cint;
    let v14_54 = 0x6c3f4f54e23b2ac52157cdef4c3209f1378461ec841994cfe039a20c113456ccint;
    let e14_54 = lemma_mpow_double_next(b14, n, e14_53, v14_53, s14_54, v14_54);
    let s14_55 = 0x33e9b626a79fc49679e3b47b4602e02296aa9d9696cd909d78fd93d3daacac1eint;
    let v14_55 = 0x2c2894b7512bea3596feb4e9fd0e0144787b8543474cd16b11dd5e2da6a8c6d3int;
    let e14_55 = lemma_mpow_double_next(b14, n, e14_54, v14_54, s14_55, v14_55);
    let s14_56 = 0x6d558afc08345398cc0a76a5e4bf15f302dfb8a06517b3c2f7551569ebd2efe0int;
    let v14_56 = 0x4a84bdcfc9bf1c293e72694e94d6ab603d549a9221251e9ebde3c5a9944b4385int;
    let e14_56 = lemma_mpow_double_next(b14, n, e14_55, v14_55, s14_56, v14_56);
    let s14_57 = 0x3aa0d5d0188e51bc4d0c8655f5018132dbe96dcdc2b0c7007ed48a225f7fe36cint;
    let v14_57 = 0x647c63115711a8d027e329ea205fe322344ad25dc60bf5811e0b67325ce31474int;
    let e14_57 = lemma_mpow_double_next(b14, n, e14_56, v14_56, s14_57, v14_57);
    let s14_58 = 0x18859dcae23f69f187e16e6314c793b77dc03a63d1344794cf1d23a5fe6a859cint;
    let v14_58 = 0x6e9b1b958d23136ebaa7f3d0e6853ddf3778e90367874e28427788de8fe367f8int;
    let e14_58 = lemma_mpow_double_next(b14, n, e14_57, v14_57, s14_58, v14_58);
    let v14_59 = 0x3faab432b142a39ae38b8263a68c9106616982c536b6995af6a000a7d9b15db2int;
    let e14_59 = lemma_mpow_double(b14, n, e14_58, v14_58, v14_59);
    let v14_60 = 0x2f1e9b45ae777c445055944b71d11083130ba490c4e0e13e2076a59928dcdc3int;
    let e14_60 = lemma_mpow_double(b14, n, e14_59, v14_59, v14_60);
    let s14_61 = 0x3cd1d443aa356e5f2aed6c755e3664fb0a1453eeea6a6dac27e2a960e3828d47int;
    let v14_61 = 0x6ae084d8ea88586ce67cf66e38d6402cc84c3247ac4eef78e153acf7078eb3b4int;
    let e14_61 = lemma_mpow_double_next(b14, n, e14_60, v14_60, s14_61, v14_61);
    let s14_62 = 0x2117d719d94d46578aa8b8df02573d634b34e06d580e1feab5a6f7814ce6f625int;
    let v14_62 = 0x6866dd5d353bf215ddd3e3de21ddbd628a7740206433183173f02c1910eb7cc8int;
    let e14_62 = lemma_mpow_double_next(b14, n, e14_61, v14_61, s14_62, v14_62);
    let v14_63 = 0x521400971a7e72b2bf22ed9809aa7cb197444544f576055dcf993e34eaa02ffeint;
    let e14_63 = lemma_mpow_double(b14, n, e14_62, v14_62, v14_63);
    let v14_64 = 0x1565293b33e570f80b948da1d0efaf656e9f85c2e14ba58f9735f3282d230bf1int;
    let e14_64 = lemma_mpow_double(b14, n, e14_63, v14_63, v14_64);
    let s14_65 = 0xe18fe28c138a0050a7decf8a3d4cbf31219a6fc43c62aa49a0d3c4262539026int;
    let v14_65 = 0x55833c668da7f53b0ea78648b3fd318e628ce933a885df39e1ce1fae8c74bf8bint;
    let e14_65 = lemma_mpow_double_next(b14, n, e14_64, v14_64, s14_65, v14_65);
    let s14_66 = 0x4e6ddefb1eb2bcd43ba36fa7cb2150a17b66c11ed1919ef0fdfbe31f68bfcafcint;
    let v14_66 = 0x2980dc9e6de40b21ba82350f33b026b3dfbdd539c26941bb20109e60a2c260d6int;
    let e14_66 = lemma_mpow_double_next(b14, n, e14_65, v14_65, s14_66, v14_66);
    let v14_67 = 0x1e95b2fe03592a723a6e213feb5b2567814e46d5fa52ea2342c56fc47af238cfint;
    let e14_67 = lemma_mpow_double(b14, n, e14_66, v14_66, v14_67);
    let s14_68 = 0x49004b5869017535f0620fa95e9dc0116ff286dcf240f94e8b0bfdbab281ca40int;
    let v14_68 = 0x425c3e87e16071fba57ae368ee4a7c8c0d62b0c9e53c3619837fa0740302ffd9int;
    let e14_68 = lemma_mpow_double_next(b14, n, e14_67, v14_67, s14_68, v14_68);
    let v14_69 = 0x2bf9fe30d0d95ed8e3eca480631245d55bb973d6b3888880a0c8014fb4bbf373int;
    let e14_69 = lemma_mpow_double(b14, n, e14_68, v14_68, v14_69);
    let v14_70 = 0x24be01a172d8c7a382a6a2dae484dda4ea36f3a354138c78c9f75a8c892cbb4bint;
    let e14_70 = lemma_mpow_double(b14, n, e14_69, v14_69, v14_70);
    let s14_71 = 0x206103896c8490e20f0d0d13e214e1aa6a92c3680b581e5f03258d3fb98a0ecfint;
    let v14_71 = 0x4f834770d356527caa1b7556384a3f581497df1e8cca9bf3564830a50b728831int;
    let e14_71 = lemma_mpow_double_next(b14, n, e14_70, v14_70, s14_71, v14_71);
    let s14_72 = 0x6dc9108bb3e8c17e885933df1cde2defc1f6d28a63d48ac916042a7a5981266bint;
    let v14_72 = 0x2a1aa14a40711dfcc5426baa602cca5e23a0c0d650807a624dbf4189e00a5c90int;
    let e14_72 = lemma_mpow_double_next(b14, n, e14_71, v14_71, s14_72, v14_72);
    let v14_73 = 0x5ea7310895702e9ed8421d5cd872f3f43c976f0bdd4bfb08912114e879aef589int;
    let e14_73 = lemma_mpow_double(b14, n, e14_72, v14_72, v14_73);
    let s14_74 = 0xd155a7cf756e37fe0397be61ffe8806614e6ba8440aec5438d502b23a23467fint;
    let v14_74 = 0x17268da3e5c223bad7135955dfaaaef76a38e0d4c2f2dc79b52549c45477d044int;
    let e14_74 = lemma_mpow_double_next(b14, n, e14_73, v14_73, s14_74, v14_74);
    lemma_mpow_mul(g, 0x98fc71ed18308f7e6f75d500000000nat, 0x727c9db6e77639f334dnat, n);
}

/// A power of seven modulo the order.
proof fn lemma_order_power_15()
    ensures
        mpow(0x7int, 0x8d78125d75c79835b9d4a08c8b4df9daa6ac02e94e9bce6edd500000000nat, modulus()) == 0x672315bde95b3660335e8a5dcace029b6404f0331eae7401fa8c8374cd50438dint,
{
    let n = 0x73eda753299d7d483339d80809a1d80553bda402fffe5bfeffffffff00000001int;
    let g = 7int;
    lemma_order_power_14();
    let b15 = 0x17268da3e5c223bad7135955dfaaaef76a38e0d4c2f2dc79b52549c45477d044int;
    lemma_mpow_first(b15, n);
    let v15_1 = 0x63227bdb860d2a12558f20da615f3b9e7fb698102bb5d264d1491aad829901b1int;
    let e15_1 = lemma_mpow_double(b15, n, 1nat, b15, v15_1);
    let v15_2 = 0x4db9bce1d05e9f45df46c20a2eabc07ceb2b8f2b3ee8381af6ccd65fc45f8874int;
    let e15_2 = lemma_mpow_double(b15, n, e15_1, v15_1, v15_2);
    let v15_3 = 0x1cf03db8e6ee670d7cb50eb7fd9481f62ebec706cded1034c2560ec7d9511cb4int;
    let e15_3 = lemma_mpow_double(b15, n, e15_2, v15_2, v15_3);
    let v15_4 = 0x26bacc21b6841622c93d34d61dbc978d080ac4d063ed822e251348da429d6357int;
    let e15_4 = lemma_mpow_double(b15, n, e15_3, v15_3, v15_4);
    let s15_5 = 0x5c4a0741f0aa906c8482f208639fa47f3ea78c7f91654fbb6d87835bd521b404int;
    let v15_5 = 0x71c57384ba8c6a4d81cf4a1aabd22d4de0201d4e727b83716de1a0337e849f6fint;
    let e15_5 = lemma_mpow_double_next(b15, n, e15_4, v15_4, s15_5, v15_5);
    let v15_6 = 0x34c64dd46bfd00da86a65d18cbe34ba8161d75a284faac0953003a511ea9a97bint;
    let e15_6 = lemma_mpow_double(b15, n, e15_5, v15_5, v15_6);
    let v15_7 = 0x21738822539da19e645b3f200156fcc1335f2eed4264ce97c7853d3c371a2d7cint;
    let e15_7 = lemma_mpow_double(b15, n, e15_6, v15_6, v15_7);
    let v15_8 = 0x6ce69b42534521b13b7628aafe68e25d2dff332173ad9109c55f633205d97bb4int;
    let e15_8 = lemma_mpow_double(b15, n, e15_7, v15_7, v15_8);
    let s15_9 = 0x6f75c4cc1bd821554fa6a6e48d6adc187b67f70745a90ef33fcbbe12dfb00946int;
    let v15_9 = 0x448b650fbd2298e88c5eab44f538ed4afaac6b31dc53c327e40f78c991f466a5int;
    let e15_9 = lemma_mpow_double_next(b15, n, e15_8, v15_8, s15_9, v15_9);
    let v15_10 = 0x9144168bc516d34e0524355a325c048eb050452c6b296ab9944a3133c757ffbint;
    let e15_10 = lemma_mpow_double(b15, n, e15_9, v15_9, v15_10);
    let s15_11 = 0x696767fd6342121f9bee321e794b4ea02a7fe6ebeb1e85db42105bd7cd534d3fint;
    let v15_11 = 0x51fcf24a080556546b5f7326f7ecb0748f44b4182bbf95e1e2258987de116f1fint;
    let e15_11 = lemma_mpow_double_next(b15, n, e15_10, v15_10, s15_11, v15_11);
    let v15_12 = 0x3cc5496db67964d7c252971261e8663097c99df4e93d08492471b4482a23cae8int;
    let e15_12 = lemma_mpow_double(b15, n, e15_11, v15_11, v15_12);
    let s15_13 = 0x3bf86da11ef111d3bef89d1603f81cb0ae3844841a3541355a5f78022412aa7eint;
    let v15_13 = 0x25bd3743d3966232984b745b5bad6925227e00c600fa14fa0c75c1a4aeb73d8fint;
    let e15_13 = lemma_mpow_double_next(b15, n, e15_12, v15_12, s15_13, v15_13);
    let v15_14 = 0x1302d3a2fc188a93c51d17116e5b676e8d8b25e33769c4e7a7361c613df13946int;
    let e15_14 = lemma_mpow_double(b15, n, e15_13, v15_13, v15_14);
    let s15_15 = 0x21767a6d5f244314623185e5bc4f8d388b096493769db32820ee28a26c4486a4int;
    let v15_15 = 0x6dba4a35b10679933c48585abe222904736cdafae478da7611764a68adfb8e5dint;
    let e15_15 = lemma_mpow_double_next(b15, n, e15_14, v15_14, s15_15, v15_15);
    let s15_16 = 0x63b6341afabb2f0012424a0e06bcf887bd03d6e2748ede33fefda5268659b9e1int;
    let v15_16 = 0x18a72587fd40c3a4f8ce3b14880b14cb295f354998527b3945743fe2c06ac375int;
    let e15_16 = lemma_mpow_double_next(b15, n, e15_15, v15_15, s15_16, v15_16);
    let v15_17 = 0x215bcdb491bf1cec32c7c1ac249d23bf435d91c24807bc178bec16532a7277f6int;
    let e15_17 = lemma_mpow_double(b15, n, e15_16, v15_16, v15_17);
    let s15_18 = 0xd48dae75d5a837ee25c334e9f3f3ea17207960e6fdafe66220a9d7962227931int;
    let v15_18 = 0xe9558079b8d0ef2d3576137e06d0fb1e7e879856ba319024629847207938dd0int;
    let e15_18 = lemma_mpow_double_next(b15, n, e15_17, v15_17, s15_18, v15_18);
    let s15_19 = 0x813960b80381b8baa807700459a567dcdb1808c9515cf5d753e5fe3e7d45fafint;
    let v15_19 = 0x4a08f04ff0d7dd74fda75074401b5cbf938a7ca050c643cdbdbbeb29ddc286d9int;
    let e15_19 = lemma_mpow_double_next(b15, n, e15_18, v15_18, s15_19, v15_19);
    let v15_20 = 0x5866a164fdade8858a2c6e1da160cd532c6c681f9f1696c53266b96f36b3494eint;
    let e15_20 = lemma_mpow_double(b15, n, e15_19, v15_19, v15_20);
    let v15_21 = 0x2d8d0a99e96deaf05ea6435e3271c85db9ea2430d9df36853ce488c85920f5int;
    let e15_21 = lemma_mpow_double(b15, n, e15_20, v15_20, v15_21);
    let s15_22 = 0x4ceff96c62f5103135616e68bf59771daadd9d6da0229330b34bcf40f09f2cdbint;
    let v15_22 = 0x50d70a14872d5efc15f26a31b22680397c36312a0c520abd5845cfbcf487e34bint;
    let e15_22 = lemma_mpow_double_next(b15, n, e15_21, v15_21, s15_22, v15_22);
    let s15_23 = 0x241f1592cdc66f41c43a67a702356744352d1c9621060b79a4ca785174d4ee2fint;
    let v15_23 = 0x613f977cedad2719d3b29ea1a61f513210cb7362a935f09cffe462349c2256a6int;
    let e15_23 = lemma_mpow_double_next(b15, n, e15_22, v15_22, s15_23, v15_23);
    let v15_24 = 0x2ad09a35f0c1658568857bbf220d2f72b0bdb804e9fff29d25eb771bb405bddbint;
    let e15_24 = lemma_mpow_double(b15, n, e15_23, v15_23, v15_24);
    let s15_25 = 0x4a1bda7da40fae3848d4cdc2f8df6b28ad84f6a20cb7ba00227bb5271a1e50edint;
    let v15_25 = 0x33cfa4f6d41352b40fd031e5a35902b616db0bc535cfd2c1e16160c961537a98int;
    let e15_25 = lemma_mpow_double_next(b15, n, e15_24, v15_24, s15_25, v15_25);
    let v15_26 = 0x4ead89cb91e3dc9c4162b4612406e75920cad0a961abb006c92eb43fb3baa0fdint;
    let e15_26 = lemma_mpow_double(b15, n, e15_25, v15_25, v15_26);
    let v15_27 = 0x6e78bb40c9333c81b82ac08c1f9443acdfe3c7c1d8fc0c4b9a9f8fc32f2952afint;
    let e15_27 = lemma_mpow_double(b15, n, e15_26, v15_26, v15_27);
    let s15_28 = 0x1825b7f74e25a72fee5c7601414f1523181b970d163e70f1a95883920302ae88int;
    let v15_28 = 0x1fcf9344f0db9385bab5a696aa81edec228dabe0d6ad199e9460a5791191a6aint;
    let e15_28 = lemma_mpow_double_next(b15, n, e15_27, v15_27, s15_28, v15_28);
    let s15_29 = 0x28f590e0f839745a8d5d510c95db3855a8fc5e741386691fbc4dbb9a24723f23int;
    let v15_29 = 0x48a5f027d4997f5871152ec08d0e2f14435558138706946d6fca68be43b53ce6int;
    let e15_29 = lemma_mpow_double_next(b15, n, e15_28, v15_28, s15_29, v15_29);
    let v15_30 = 0x25cebb931af71c50c912db90d122757363e3f16d835854524753e9707cec733bint;
    let e15_30 = lemma_mpow_double(b15, n, e15_29, v15_29, v15_30);
    let s15_31 = 0x488b6ce1f610919b51d1d1f87ab53251484ad00327c60c21264a9139b2066ce8int;
    let v15_31 = 0x2e9ee598c826071b399d427311605b0c62cbe519bb33318745add997affd2cdfint;
    let e15_31 = lemma_mpow_double_next(b15, n, e15_30, v15_30, s15_31, v15_31);
    let v15_32 = 0x407e50a6b85c05bdedbb24b17e51e0aa255cb071836bdedb717888a6d360211eint;
    let e15_32 = lemma_mpow_double(b15, n, e15_31, v15_31, v15_32);
    let s15_33 = 0x6e867da9df628f11b741773adb09ebd9ed18ea8498192be29fbcbe5ff7da9ee7int;
    let v15_33 = 0x435c2a206df40f011e234326a2136c8b910b28b2d06788a2e7c2df9e007c8a53int;
    let e15_33 = lemma_mpow_double_next(b15, n, e15_32, v15_32, s15_33, v15_33);
    let s15_34 = 0x29371a29feb0481684d38a91fae723d475931be8a696b8bb723a5481ec3c875cint;
    let v15_34 = 0x167f71899c29a21573f838cb9930d1b6cdc8a09d02c775c879a27c9ba6feb32cint;
    let e15_34 = lemma_mpow_double_next(b15, n, e15_33, v15_33, s15_34, v15_34);
    let v15_35 = 0x44ed183a4b01928c2ec3947a011c2924c1588e8039896c27aa04f701f38842c6int;
    let e15_35 = lemma_mpow_double(b15, n, e15_34, v15_34, v15_35);
    let v15_36 = 0x3f534565be4111b3441bb9170864f7373924fdf3952c2321e2199437131adae4int;
    let e15_36 = lemma_mpow_double(b15, n, e15_35, v15_35, v15_36);
    let v15_37 = 0x26930eb635b1716f4172e0720e9792c0586ee1dd477cfc037590151bbfd86aa4int;
    let e15_37 = lemma_mpow_double(b15, n, e15_36, v15_36, v15_37);
    let v15_38 = 0x7313c1cb7f13f4d2a99ce93066f47b194e59b4fd4e89e7de31410d11e2ac38c3int;
    let e15_38 = lemma_mpow_double(b15, n, e15_37, v15_37, v15_38);
    let s15_39 = 0x6bac080c34fe59271340feabec4c7bd491bcb514dbc9d4bdf624c6fa843fcbebint;
    let v15_39 = 0x1ce14095a5344124258c031d299af4e2b285b7d618cfbd1b26c9180e4d8d442fint;
    let e15_39 = lemma_mpow_double_next(b15, n, e15_38, v15_38, s15_39, v15_39);
    let v15_40 = 0xe57e05502e7a00811b77bbed6699f756f4cbc155c55f97fa536785baea6f68int;
    let e15_40 = lemma_mpow_double(b15, n, e15_39, v15_39, v15_40);
    let s15_41 = 0x150413f0dfee68a044b83d56a5047dd871fc5b7695b7f9d934b26af9f09817e0int;
    let v15_41 = 0x672315bde95b3660335e8a5dcace029b6404f0331eae7401fa8c8374cd50438dint;
    let e15_41 = lemma_mpow_double_next(b15, n, e15_40, v15_40, s15_41, v15_41);
    lemma_mpow_mul(g, 0x446ae342e3472f9bca117eba67da01f27ca4ae01100000000nat, 0x21156cd3585nat, n);
}

/// A power of seven modulo the order.
proof fn lemma_order_power_16()
    ensures
        mpow(0x7int, 0x3810c3df326b3818ba9b5c04782d11615d914a15af84b300000000nat, modulus()) == 0x576eb092c074ad1a3301723363497946181285df649533c0e9789e844ea03f20int,
{
    let n = 0x73eda753299d7d483339d80809a1d80553bda402fffe5bfeffffffff00000001int;
    let g = 7int;
    lemma_order_power_14();
    let b16 = 0x17268da3e5c223bad7135955dfaaaef76a38e0d4c2f2dc79b52549c45477d044int;
    lemma_mpow_first(b16, n);
    let s16_1 = 0x63227bdb860d2a12558f20da615f3b9e7fb698102bb5d264d1491aad829901b1int;
    let v16_1 = 0x33f7e7558f47b17598bcb83eca833a3e65453591bc59392c3e331b2e838de097int;
    let e16_1 = lemma_mpow_double_next(b16, n, 1nat, b16, s16_1, v16_1);
    let v16_2 = 0xca5fa3031fad99ec1e276697776a3578742084fd1aa82a5fe9b51a3dcd98c63int;
    let e16_2 = lemma_mpow_double(b16, n, e16_1, v16_1, v16_2);
    let s16_3 = 0x5c3d75d1c074f0d6eb690275f369c40289085a967bf7e8d797ff10d1f51bfc2fint;
    let v16_3 = 0x9efb17b7b64ef9bee192301c7624c2c5187e3921c8632fb1c945a1ad6968b70int;
    let e16_3 = lemma_mpow_double_next(b16, n, e16_2, v16_2, s16_3, v16_3);
    let v16_4 = 0x15c83a128c91bd4fcab6ad8a7a924ed44b4a39c8fbcfe4770807baa793413186int;
    let e16_4 = lemma_mpow_double(b16, n, e16_3, v16_3, v16_4);
    let v16_5 = 0x9c256c50ff3b01ed3affba155baecac72534dc0a687ba583ab194f1f8f38fe6int;
    let e16_5 = lemma_mpow_double(b16, n, e16_4, v16_4, v16_5);
    let v16_6 = 0x6e8b6386e2bf4e3295d1c0e146b331ad02571c5989fe41235f9dd2891aa58288int;
    let e16_6 = lemma_mpow_double(b16, n, e16_5, v16_5, v16_6);
    let s16_7 = 0x1780661d9193e67ec35b047677f8c8786cfd85eed1a601e10e769205722cb596int;
    let v16_7 = 0x6d8697d66e796738221639671db9a037ccb7a098b774a57d8e89551caf258cfbint;
    let e16_7 = lemma_mpow_double_next(b16, n, e16_6, v16_6, s16_7, v16_7);
    let s16_8 = 0x76bff84f1693867ae024796c7262d5aadf19f27599f098f3a62fdd64d50580int;
    let v16_8 = 0x326040839eb618318d3e99568e1870ecd8010a621e4773635366804d90363356int;
    let e16_8 = lemma_mpow_double_next(b16, n, e16_7, v16_7, s16_8, v16_8);
    let s16_9 = 0xdcbf7f3bc259aeb3a9580cba83f4342e2e8fdcf99f7d877358f471569f51a40int;
    let v16_9 = 0x3b240dee6ef1cb1a8c578772c2311589645d8a77419ed7ec99e0304ce6b9aaa2int;
    let e16_9 = lemma_mpow_double_next(b16, n, e16_8, v16_8, s16_9, v16_9);
    let v16_10 = 0x162b1fd6304a04645cd5850c6c390ba9de883282d57e3d09386060b30d79fa34int;
    let e16_10 = lemma_mpow_double(b16, n, e16_9, v16_9, v16_10);
    let v16_11 = 0x70ae1f7abbdf24e1969b86c34d1ab11ee00491b4c3c726df4225b41eb5efdc39int;
    let e16_11 = lemma_mpow_double(b16, n, e16_10, v16_10, v16_11);
    let s16_12 = 0x59a76ec2e9d75cc55222d0b6c947281318aed46a7881a3bff2b5d6cab82cdf1aint;
    let v16_12 = 0x52515b23dbfb4b8010bcc5a2f0f4b6204e223abebd2daceec8403f386d41d88int;
    let e16_12 = lemma_mpow_double_next(b16, n, e16_11, v16_11, s16_12, v16_12);
    let v16_13 = 0x70f447d5d56793f1ea5b9c413fd810b0f4290e704e47a108b019ee7119d3058eint;
    let e16_13 = lemma_mpow_double(b16, n, e16_12, v16_12, v16_13);
    let v16_14 = 0x133b90d77da461071a41cb7e3c343991de780b3beabb4de7d509188446cf89d9int;
    let e16_14 = lemma_mpow_double(b16, n, e16_13, v16_13, v16_14);
    let v16_15 = 0x384dc721ee7c7a3353e80b0b98ac06b824fec316657125b7fcd928debea64cbcint;
    let e16_15 = lemma_mpow_double(b16, n, e16_14, v16_14, v16_15);
    let v16_16 = 0x214bc6c16a38e5d3513738e35a264faee0e6b82e478446ca0597d698627046e8int;
    let e16_16 = lemma_mpow_double(b16, n, e16_15, v16_15, v16_16);
    let v16_17 = 0x6378eea260c59d55d59dd17492c99511f588b6cbb93fe3317a52580755185f04int;
    let e16_17 = lemma_mpow_double(b16, n, e16_16, v16_16, v16_17);
    let s16_18 = 0x416f7a0060b5602658bd357557ff91b8b9dc1e01372fb309a172bd3f3457c411int;
    let v16_18 = 0x6e6824d19280e08b90bcee979f7a4de6772197626ac0e5f788716b1b025cb8b6int;
    let e16_18 = lemma_mpow_double_next(b16, n, e16_17, v16_17, s16_18, v16_18);
    let s16_19 = 0x696b788f9be13b89f37a3af1f94b3a6f4c2bb14c0d1bb74a0b5b0fdcbf2d717bint;
    let v16_19 = 0x576eb092c074ad1a3301723363497946181285df649533c0e9789e844ea03f20int;
    let e16_19 = lemma_mpow_double_next(b16, n, e16_18, v16_18, s16_19, v16_19);
    lemma_mpow_mul(g, 0x446ae342e3472f9bca117eba67da01f27ca4ae01100000000nat, 0xd1c83nat, n);
}

/// A power of seven modulo the order.
proof fn lemma_order_power_17()
    ensures
        mpow(0x7int, 0x861ec289d183279aff9c657418da9b481ba2bf325fff0d0aa9b00000000nat, modulus()) == 0x67ee5d1f3b069511cd89744d5897256537cb1d8475a21d7924a57ba2b69a4d76int,
{
    let n = 0x73eda753299d7d483339d80809a1d80553bda402fffe5bfeffffffff00000001int;
    let g = 7int;
    lemma_order_power_16();
    let b17 = 0x576eb092c074ad1a3301723363497946181285df649533c0e9789e844ea03f20int;
    lemma_mpow_first(b17, n);
    let v17_1 = 0x81f8ed8d5d74440e8af8c5fca9fcce377d28938aa614b26b8325e3f21b8ebc1int;
    let e17_1 = lemma_mpow_double(b17, n, 1nat, b17, v17_1);
    let v17_2 = 0x4b6811c9c6fc4c530791e1b4b6170ce908d35894a27f89482886fdb672a8e2d7int;
    let e17_2 = lemma_mpow_double(b17, n, e17_1, v17_1, v17_2);
    let s17_3 = 0x5dc82dbfb5d473c09a86293c784bee3e7ac4cc98aa294a0dd8676b75c39bb5a9int;
    let v17_3 = 0x254f0255e963432423cda36d03d86b67eac7b50b5bb64a8e19b7bf5e3c051af6int;
    let e17_3 = lemma_mpow_double_next(b17, n, e17_2, v17_2, s17_3, v17_3);
    let s17_4 = 0x263adf0fdb73b0d656fa409a4ce094d163f0f0cb55797d5a5ceb26a34a0ee1adint;
    let v17_4 = 0x5041d211742d98b82df76a6de9464ee565060b150e72d9c8c63e75b3b736adc1int;
    let e17_4 = lemma_mpow_double_next(b17, n, e17_3, v17_3, s17_4, v17_4);
    let v17_5 = 0x1066aa472015be0a3aa0b2dfbac60647a975d5953393a54a5f11a6e4129826ebint;
    let e17_5 = lemma_mpow_double(b17, n, e17_4, v17_4, v17_5);
    let v17_6 = 0x28252b7c8503ca5e70fd806fe3a54ad2e74de5da87055bc7af25b770f9eae5f5int;
    let e17_6 = lemma_mpow_double(b17, n, e17_5, v17_5, v17_6);
    let s17_7 = 0x2d11eb10159abf7d65043ac85d283ebc4c5c8d662958559c4e95cf9cc1c0081fint;
    let v17_7 = 0xc2cc0b7b7712ebedb1b8edbbba73d6645f28fa58ac4e20717a273a4ff77dbecint;
    let e17_7 = lemma_mpow_double_next(b17, n, e17_6, v17_6, s17_7, v17_7);
    let v17_8 = 0x478731ef69c5efeecf167e26c2bf92d008439b0e21239b8684da17951b4128dcint;
    let e17_8 = lemma_mpow_double(b17, n, e17_7, v17_7, v17_8);
    let v17_9 = 0x38566bddb70c569a4dd2970b057621f94c8a74f08fc506cc4d431c69556210abint;
    let e17_9 = lemma_mpow_double(b17, n, e17_8, v17_8, v17_9);
    let v17_10 = 0x31f5cdb0891c7c2653db3346ef0b4a877af4122aa55ad14a8eb2c389e394e09bint;
    let e17_10 = lemma_mpow_double(b17, n, e17_9, v17_9, v17_10);
    let s17_11 = 0x4be4afcccb89a08dac60ef682f2b0e5f3d780188f43168ab84ef82aef8d57ec6int;
    let v17_11 = 0x26c5557d19814d5423adfac7cd5fd89ab0528c215b4376a5a86a676209285c40int;
    let e17_11 = lemma_mpow_double_next(b17, n, e17_10, v17_10, s17_11, v17_11);
    let s17_12 = 0x68ba2383e8d54088a9aded2d4280d6d1fdebe3ed40899f8d0b2393b00c2445e1int;
    let v17_12 = 0x361e5ca6c4d21c1054a9ddd6123993a2759b2cd18c3e0ac88650b887f8f4c8d9int;
    let e17_12 = lemma_mpow_double_next(b17, n, e17_11, v17_11, s17_12, v17_12);
    let v17_13 = 0x21e7ca92561c68ed182d178bb19dc40b304190386dd5b7fd7c465e007c4c2f83int;
    let e17_13 = lemma_mpow_double(b17, n, e17_12, v17_12, v17_13);
    let v17_14 = 0x243349be915e0af54237796c2e46843eee1b2ffd7b2ac1069babb4a5839dfe1aint;
    let e17_14 = lemma_mpow_double(b17, n, e17_13, v17_13, v17_14);
    let s17_15 = 0x3f4f74bde8f24fefb6698285a933df0cf60f06f5841e178b39123cb66e6e297fint;
    let v17_15 = 0xfe6e9d7b823545e74512acf99b3eeb36c3af9b309aba60f29b7a7784e8c55f6int;
    let e17_15 = lemma_mpow_double_next(b17, n, e17_14, v17_14, s17_15, v17_15);
    let s17_16 = 0x4bb4a3f9978277fe3ffc91e8c5e59b60c3eb2828944ff9d3a51340d5580a4794int;
    let v17_16 = 0x1d4a39d0bfbdd779eb160b9dbc6c114bb1ae24575bc77eeb4016adacb49d39c2int;
    let e17_16 = lemma_mpow_double_next(b17, n, e17_15, v17_15, s17_16, v17_16);
    let s17_17 = 0x2804b731afde40058e967ad7a7fbd68b2e845b7a40264eeb0e3542b5f572c2a1int;
    let v17_17 = 0x32d7dd217422bda81d5fd99e3b039bc060b426dff581d66a1bb2f271d917a5abint;
    let e17_17 = lemma_mpow_double_next(b17, n, e17_16, v17_16, s17_17, v17_17);
    let s17_18 = 0x481df206ca46fe651db82fc47cf1824c53b8e40ef47452e8d2631d4788ab032cint;
    let v17_18 = 0x2818f9e0d149d2db624c0448bf3e71a9f896a4c15320d93c9c996d56fe836993int;
    let e17_18 = lemma_mpow_double_next(b17, n, e17_17, v17_17, s17_18, v17_18);
    let v17_19 = 0x25da2d478ba630bc1e32f4c04d75c755e1a962c1054d73249433fdd171ca18d4int;
    let e17_19 = lemma_mpow_double(b17, n, e17_18, v17_18, v17_19);
    let v17_20 = 0x5907be5162c1888c947dd3a80f283e338e42fbabea8ae4f7ed7c27fe2142f3d8int;
    let e17_20 = lemma_mpow_double(b17, n, e17_19, v17_19, v17_20);
    let s17_21 = 0x63fdadb349b83a41e99c2b71d0a7ad7a66d81182868481adf3fe28366ad41ec5int;
    let v17_21 = 0x67ee5d1f3b069511cd89744d5897256537cb1d8475a21d7924a57ba2b69a4d76int;
    let e17_21 = lemma_mpow_double_next(b17, n, e17_20, v17_20, s17_21, v17_21);
    lemma_mpow_mul(g, 0x3810c3df326b3818ba9b5c04782d11615d914a15af84b300000000nat, 0x264679nat, n);
}

/// A power of seven modulo the order.
proof fn lemma_order_power_18()
    ensures
        mpow(0x7int, 0x3075fb3adcb3b1b5cd6f3c893fbb65f86c851eb506a52b6bc3700000000nat, modulus()) == 0x86fb27a35f67dd3f695a1e882f5bdb7c92d2f844520e02c83a6bcd031849292int,
{
    let n = 0x73eda753299d7d483339d80809a1d80553bda402fffe5bfeffffffff00000001int;
    let g = 7int;
    lemma_order_power_16();
    let b18 = 0x576eb092c074ad1a3301723363497946181285df649533c0e9789e844ea03f20int;
    lemma_mpow_first(b18, n);
    let s18_1 = 0x81f8ed8d5d74440e8af8c5fca9fcce377d28938aa614b26b8325e3f21b8ebc1int;
    let v18_1 = 0x3e40ef7f5ae37cbf4461b91aed3cd04d09fa78edb957759fc2fdb589e387baccint;
    let e18_1 = lemma_mpow_double_next(b18, n, 1nat, b18, s18_1, v18_1);
    let v18_2 = 0x38e602e0a8ea9543fb6a142b8d995b4a9dfc48282c0f512f1dc8855c269a284cint;
    let e18_2 = lemma_mpow_double(b18, n, e18_1, v18_1, v18_2);
    let s18_3 = 0x4d24fd91f91015e1c66897e580f7d0c5ca5f8f78f52ca094be935cca673e75aaint;
    let v18_3 = 0x3b33f4e3c75ea3d31ba79d99708bf5da37740ccaa643ae4b87af834a148de905int;
    let e18_3 = lemma_mpow_double_next(b18, n, e18_2, v18_2, s18_3, v18_3);
    let s18_4 = 0x52b0ec74744620520f3cfc496683ef3f6884d2919c6eb0f7aca7f4cc1b093a2cint;
    let v18_4 = 0x1085b3d64efc5286c576cd18cc8dc7cb400835dc6742f0ecbc48678d699c9ee9int;
    let e18_4 = lemma_mpow_double_next(b18, n, e18_3, v18_3, s18_4, v18_4);
    let s18_5 = 0x379553d9c56338b339a1e1c24085aa0db79fef651bf53121ffddd7e827e790f1int;
    let v18_5 = 0x52476941abc71142bdffe614ed615d05e0be0cd440c87f7ae9f0a9d0b0697054int;
    let e18_5 = lemma_mpow_double_next(b18, n, e18_4, v18_4, s18_5, v18_5);
    let v18_6 = 0x5e46f9f7fe02ae5cf6eb2632ff4dc05643e5c4e264a1cd70c0d65ff0054e5b17int;
    let e18_6 = lemma_mpow_double(b18, n, e18_5, v18_5, v18_6);
    let s18_7 = 0x3698eaf5c57d22090498bd4480dd5603419ab3f0147140dc134de9dd9e0413d3int;
    let v18_7 = 0x4a962906e0aef0d2328995c5a0fedba402a5434f99ed60935a715149af30f1b6int;
    let e18_7 = lemma_mpow_double_next(b18, n, e18_6, v18_6, s18_7, v18_7);
    let v18_8 = 0x3621cdbe09e0fa8907a9e4d83b41a827127d2d66e8bc4d0fe2e9ee7e3f68b624int;
    let e18_8 = lemma_mpow_double(b18, n, e18_7, v18_7, v18_8);
    let s18_9 = 0x4bc93247f5dd35a19871d9dfcb10c6885c552f0e72621277e390eec83d1c55fdint;
    let v18_9 = 0x4b942604ca5aaab401a69c70fd1ea1c21f98411482ca5ac58faf165ef2164fe6int;
    let e18_9 = lemma_mpow_double_next(b18, n, e18_8, v18_8, s18_9, v18_9);
    let v18_10 = 0x6933d0d8f3570d68d0361595e13bdf919182938153640b9ab6af18d8e0e900e5int;
    let e18_10 = lemma_mpow_double(b18, n, e18_9, v18_9, v18_10);
    let v18_11 = 0x38b4d2a380b97beba51f592afb6a29a5ba75e346bbd6ee662443c1ad76db05e0int;
    let e18_11 = lemma_mpow_double(b18, n, e18_10, v18_10, v18_11);
    let v18_12 = 0x5cf22b318f585fd315fb9f0dcff09a60813da226453c41f3d6a7181b12d80ff2int;
    let e18_12 = lemma_mpow_double(b18, n, e18_11, v18_11, v18_12);
    let s18_13 = 0x2ee110e9b810edc4eb4bbf8e2993a9cd0520a28f7e1b3c72335788372148a1cdint;
    let v18_13 = 0x3ef3ad5ce59706c98f99760d67feaacd8fb4a4ea2a887b3a4da6f6c4aad77a8cint;
    let e18_13 = lemma_mpow_double_next(b18, n, e18_12, v18_12, s18_13, v18_13);
    let s18_14 = 0x1c040db1d4fc54fc73f37d6fddaca2dc2ad807fb9a9d4c48e47fbc5d1cafaa0int;
    let v18_14 = 0x1b0e59a9316c3b5e8b06064529687bbcfaabffeddf90a312a840bdee2f1377dcint;
    let e18_14 = lemma_mpow_double_next(b18, n, e18_13, v18_13, s18_14, v18_14);
    let v18_15 = 0x80c65cbcf51ee25faf8ebdca80719456c92432a5927eab05520541cbaa50db2int;
    let e18_15 = lemma_mpow_double(b18, n, e18_14, v18_14, v18_15);
    let s18_16 = 0x6318ffb210228b0ec4ddf965624f34bbe79dce0dec3a96ea0023b1b920439b84int;
    let v18_16 = 0x4f591fc1bfe11d8e84a1c161d107f9412c9942403c93ce7c8bfcac99a03c06e8int;
    let e18_16 = lemma_mpow_double_next(b18, n, e18_15, v18_15, s18_16, v18_16);
    let s18_17 = 0x9798690be936dc6e5cead926f082f08f2f27e997ab266fc0036a30d9afdcb4fint;
    let v18_17 = 0x5530331e58c836071c2999a68b17f65a6aa32d0003ce7c7894ac5e5ece35e948int;
    let e18_17 = lemma_mpow_double_next(b18, n, e18_16, v18_16, s18_17, v18_17);
    let v18_18 = 0x5da7db909231b88b637238258a7f01114426a0e8f12e0ccf4e6e15c6b7ace56bint;
    let e18_18 = lemma_mpow_double(b18, n, e18_17, v18_17, v18_18);
    let s18_19 = 0x1156046a267e21e2512fdc06de7a4dfd4515ff6f453328f36a6fb71ec06e5a2bint;
    let v18_19 = 0x86fb27a35f67dd3f695a1e882f5bdb7c92d2f844520e02c83a6bcd031849292int;
    let e18_19 = lemma_mpow_double_next(b18, n, e18_18, v18_18, s18_19, v18_19);
    lemma_mpow_mul(g, 0x3810c3df326b3818ba9b5c04782d11615d914a15af84b300000000nat, 0xdd46dnat, n);
}

/// A power of seven modulo the order.
proof fn lemma_order_power_19()
    ensures
        mpow(0x7int, 0x10339313a772bfd70ed2a7e501da29df2ac27b00000000nat, modulus()) == 0x16dc1770901111c7d2ef813f2967530116898afa20670e608790ada6552b47f1int,
{
    let n = 0x73eda753299d7d483339d80809a1d80553bda402fffe5bfeffffffff00000001int;
    let g = 7int;
    lemma_order_power_13();
    let b19 = 0x3f32dc4eca018cba2efdc5414bfd7ac6f8656d6e5d7548bb2e0ae459520fd292int;
    lemma_mpow_first(b19, n);
    let s19_1 = 0x1487eaa12aa4bfada856302b5e5d820819b22e2b1b26af6b778b59c724caad26int;
    let v19_1 = 0x2513a33f963abd95d19bcb13a0663cff45a54fe33ad312114bc0c0e94877ef20int;
    let e19_1 = lemma_mpow_double_next(b19, n, 1nat, b19, s19_1, v19_1);
    let v19_2 = 0x549b40f20cea6ab0bccb94ee5eef710e838208fd4a1985ddd5be3c24334bf314int;
    let e19_2 = lemma_mpow_double(b19, n, e19_1, v19_1, v19_2);
    let s19_3 = 0x380cb3363f11617a0d09156f60eee5a05d982f259ccea04c1d6e2804bdc51cafint;
    let v19_3 = 0xd014a0777c027bdff7a200f75adbac5e90eb957c9d922f84ae7431dd0a34b2dint;
    let e19_3 = lemma_mpow_double_next(b19, n, e19_2, v19_2, s19_3, v19_3);
    let s19_4 = 0x25a57d373ad11fbaf1118400a7299b432cf457994d63afa97e109d919a88f0c9int;
    let v19_4 = 0x1a1af1634ce3aaf59cc48e0617590a09408aaab46d2ee2a7ded23217a62af0f6int;
    let e19_4 = lemma_mpow_double_next(b19, n, e19_3, v19_3, s19_4, v19_4);
    let v19_5 = 0x4160ab2e071415dcd11f4afa0ec75f89391f514aa5f3ee0f8d86c2b84f383d14int;
    let e19_5 = lemma_mpow_double(b19, n, e19_4, v19_4, v19_5);
    let v19_6 = 0x26ced43fd493d75146c08ff19f90d4cbe4a1f4298ce249d8a6478c3f691acd1eint;
    let e19_6 = lemma_mpow_double(b19, n, e19_5, v19_5, v19_6);
    let v19_7 = 0xf730aaad199ad563347edbd70e9933ae1ff71e612ed5bdb8c6d2d0da11bc50aint;
    let e19_7 = lemma_mpow_double(b19, n, e19_6, v19_6, v19_7);
    let s19_8 = 0x31a4bf09a83fbdbd2fe4d08c4972f3b8b50974ff0a109ddec9955cbc25b11704int;
    let v19_8 = 0x2100b5cb837d578b37f1bd1ac0f89d332a6e8f88da739c6e65c86df67c19e650int;
    let e19_8 = lemma_mpow_double_next(b19, n, e19_7, v19_7, s19_8, v19_8);
    let s19_9 = 0x5bfca83f543124448dde6928493e3c00d947ae7d7bf94221b5cea539b32bfad9int;
    let v19_9 = 0x43e67a5b961e27226805d137067f2e81010c74da73e64a4fc5768b5a88c38555int;
    let e19_9 = lemma_mpow_double_next(b19, n, e19_8, v19_8, s19_9, v19_9);
    let s19_10 = 0x60ca7cc85ccb11829e7b51694d7743bc9ef7852034a56b05e6ce9f64d6f4c09bint;
    let v19_10 = 0x3fadab2e6e28b68339f0f55a9518c033a6c1de9a5da6880091751797f34643acint;
    let e19_10 = lemma_mpow_double_next(b19, n, e19_9, v19_9, s19_10, v19_10);
    let v19_11 = 0x361edb0c3063285985b6d8b565bae15f51cd2190b86a943736afae20c0e229a2int;
    let e19_11 = lemma_mpow_double(b19, n, e19_10, v19_10, v19_11);
    let v19_12 = 0x450f96e8b6d2b1a0828c25de51a4ca7199cca851030f3e80d2b02d5830c66c74int;
    let e19_12 = lemma_mpow_double(b19, n, e19_11, v19_11, v19_12);
    let v19_13 = 0x15f0cb6aae05a9d3d92574e82f9d18f5072e269bfe43b0b0d599fe74c62406cfint;
    let e19_13 = lemma_mpow_double(b19, n, e19_12, v19_12, v19_13);
    let s19_14 = 0x142c12b2ca2842963810cb091a51c8d9692d140482f18727dec32d2b986287ccint;
    let v19_14 = 0x1376b1c304115f8624f1609f3c55aac4e4dc7012383dca1c3e9d195b4b142b99int;
    let e19_14 = lemma_mpow_double_next(b19, n, e19_13, v19_13, s19_14, v19_14);
    let v19_15 = 0x4ea9437af20adc30371a2042284c798be31b068c7ff12caee07df4c353231995int;
    let e19_15 = lemma_mpow_double(b19, n, e19_14, v19_14, v19_15);
    let s19_16 = 0x25d28ce622d17d86195fc199ca64f4390fbbd6591180eb2293b6e6e1f2667dc3int;
    let v19_16 = 0x6f4b70a45da7defd75877b489665d2b6a2d6bf2fc94ce4f8f2729c7b21d4f947int;
    let e19_16 = lemma_mpow_double_next(b19, n, e19_15, v19_15, s19_16, v19_16);
    let s19_17 = 0x1c9bcff95350fee57607ad1720f68409b154b484a27b6b110b2cbaf3cae08758int;
    let v19_17 = 0x1062ca83653b39f6a9c2752dad42d6429ade1f3ee96f9b5379d4cd6151ceab64int;
    let e19_17 = lemma_mpow_double_next(b19, n, e19_16, v19_16, s19_17, v19_17);
    let s19_18 = 0x6e0830f4d469b9467035b27b79ce1f27ee7dd8362ebb8312109796073d063b9aint;
    let v19_18 = 0x314c9a477dfd796a52af41f1c21195da56b02c397d3dec12bf8ffcab94ebaefint;
    let e19_18 = lemma_mpow_double_next(b19, n, e19_17, v19_17, s19_18, v19_18);
    let v19_19 = 0x278c33e757a6d5b812abe36b2e2076e110ef18f1eec0b9e1a9c773aeb008feaeint;
    let e19_19 = lemma_mpow_double(b19, n, e19_18, v19_18, v19_19);
    let v19_20 = 0x239c5d528fc70a7e06459cfc1959bca72c6a939136aa7b7ddfbe02faab163968int;
    let e19_20 = lemma_mpow_double(b19, n, e19_19, v19_19, v19_20);
    let s19_21 = 0x6de55db07645ea8ee367065577145cf172a8ac00ef297dc25880ef8bde99e25int;
    let v19_21 = 0x3a51fa10590058590ff73dbbbb77a90282da0594f4f8fb4871e67accd09c09f7int;
    let e19_21 = lemma_mpow_double_next(b19, n, e19_20, v19_20, s19_21, v19_21);
    let s19_22 = 0x48d9598e063b85aafc8a05ca332e46d65acc05feb7cf036f8ba35a66c3b0c8e7int;
    let v19_22 = 0x2fa0dac4190d4d55d6dae5df74f372551b5b4ff2d2fe205685d673b343d510daint;
    let e19_22 = lemma_mpow_double_next(b19, n, e19_21, v19_21, s19_22, v19_22);
    let v19_23 = 0x3ce8980aa5d28bf127d6c99a6d0c0c5b71582ce5137323c74c57748ad40ed2e1int;
    let e19_23 = lemma_mpow_double(b19, n, e19_22, v19_22, v19_23);
    let v19_24 = 0x2a7cbdd6169110bece44aea9789d02b94219909ca84758880c6d25633dd93556int;
    let e19_24 = lemma_mpow_double(b19, n, e19_23, v19_23, v19_24);
    let s19_25 = 0x660c2f4eb5f499257fb635df07aa5d56ba16e7e69a98276a8881d939a3603357int;
    let v19_25 = 0x5644bf48d8e816fe8950f97da145bf543b3dc1d36a28976ca2f3ddd4414dd6eint;
    let e19_25 = lemma_mpow_double_next(b19, n, e19_24, v19_24, s19_25, v19_25);
    let v19_26 = 0x71ea528f532cc7a0d96437d2dfc0301db6799b6b49a8a0f5a9571236d1f69aa3int;
    let e19_26 = lemma_mpow_double(b19, n, e19_25, v19_25, v19_26);
    let v19_27 = 0x237541da613f3c71a49233ab16a00c865c9a32036affdf3f30c6ec275317046dint;
    let e19_27 = lemma_mpow_double(b19, n, e19_26, v19_26, v19_27);
    let s19_28 = 0x6f095176454e2bc1d3a8a7f77a5bd6c1d07e6cde02349ecf41f5807fa3c830b5int;
    let v19_28 = 0x27f87b483a0fb2d1b768e1969e4e9502a4aaed4ab098ba24d9013168fb24f39dint;
    let e19_28 = lemma_mpow_double_next(b19, n, e19_27, v19_27, s19_28, v19_28);
    let s19_29 = 0x141a09db1018d6d5b3f3b2af9e0f41da7006c20fcaf222fa5dac8313a77f9485int;
    let v19_29 = 0x5e916835a4eec4f47274829c9f6f51831bfb6577b71c44ccc7bc60a35cfee695int;
    let e19_29 = lemma_mpow_double_next(b19, n, e19_28, v19_28, s19_29, v19_29);
    let v19_30 = 0x66a3dbb7117a9ad3ee64d237910349221bcd0f267b1b0e5ecc9c1efb484a08faint;
    let e19_30 = lemma_mpow_double(b19, n, e19_29, v19_29, v19_30);
    let v19_31 = 0x52d0b658d3d9776e8baca1731308c695f01071ea1ec717d5a5a3c20469aa67d9int;
    let e19_31 = lemma_mpow_double(b19, n, e19_30, v19_30, v19_31);
    let s19_32 = 0x28201112eb3d7a69fc38bf224489da4cd42d687e6e331040faae4d0aa5988b51int;
    let v19_32 = 0x4f39b4e23eea87d26f8c27b3888caf794e0d25d6bfeab097120bbc819224e2d0int;
    let e19_32 = lemma_mpow_double_next(b19, n, e19_31, v19_31, s19_32, v19_32);
    let v19_33 = 0x5aa1bf7195e2a8cdeb63d3a0f6f0cb812bd8e77a3e9caa9eee1763fbd8b49210int;
    let e19_33 = lemma_mpow_double(b19, n, e19_32, v19_32, v19_33);
    let s19_34 = 0x32fae7d2b319e4c09fb1628fa4f6be879747cc2b1827942df75ee1db8f02ad4int;
    let v19_34 = 0x5da190063862b295aacc4b0a26d10fddb2f56d0d761c20e84790c7b3bad83f87int;
    let e19_34 = lemma_mpow_double_next(b19, n, e19_33, v19_33, s19_34, v19_34);
    let v19_35 = 0x3a8512446332c26a6d375cef8fae740889428a5b6b21dc801641b3a226d1e01int;
    let e19_35 = lemma_mpow_double(b19, n, e19_34, v19_34, v19_35);
    let v19_36 = 0x1f1c8fb33fd98ad367b195e63cb0c305ce0d1028e16bcf8527ff6015aabcc32fint;
    let e19_36 = lemma_mpow_double(b19, n, e19_35, v19_35, v19_36);
    let s19_37 = 0x49f8a6516d607e195361c6de57ddd0e069b89100139e5d5daacaa67fd1f06a6fint;
    let v19_37 = 0x22b26ac9b65c40410b8ae2a46ed9ac5bef73555a26189cfc4bf996194220ef6bint;
    let e19_37 = lemma_mpow_double_next(b19, n, e19_36, v19_36, s19_37, v19_37);
    let v19_38 = 0x148ee16f395e15aa6bc082104b538f473812970f95275df5803beeb0b87016e0int;
    let e19_38 = lemma_mpow_double(b19, n, e19_37, v19_37, v19_38);
    let v19_39 = 0x47c146ea106fabae75e63dd1a5656d5d0f8c74b18520d7218ae003bdf1df2173int;
    let e19_39 = lemma_mpow_double(b19, n, e19_38, v19_38, v19_39);
    let s19_40 = 0x2887154e0958e66205df6a0e0698dad73c13dca207aad87f8e9854057b2618eeint;
    let v19_40 = 0x4b131965ab52da6617ce68a47d72ccd198af7db5779301139e4f6c4b118713cint;
    let e19_40 = lemma_mpow_double_next(b19, n, e19_39, v19_39, s19_40, v19_40);
    let s19_41 = 0x4a1b73149834df863997fea264c95c809756793271357d1b82fe2f32a331f86eint;
    let v19_41 = 0x5db39a9e57a68b87f2a769610d1fc5bffda386b2ef9aa3d0ae899263d782b54bint;
    let e19_41 = lemma_mpow_double_next(b19, n, e19_40, v19_40, s19_41, v19_41);
    let s19_42 = 0x438bf58f4def1d6d84f6a90827c584498181e91c9212768fd76c7299dfa21e5int;
    let v19_42 = 0x136c1526fc23ea70390aeadc09f5746709c0396a585fb9130c888e061b7ab4dfint;
    let e19_42 = lemma_mpow_double_next(b19, n, e19_41, v19_41, s19_42, v19_42);
    let v19_43 = 0x235a27df180258475dcbc7f349566588a63be1850cb760f73cdec7ffb82c3c11int;
    let e19_43 = lemma_mpow_double(b19, n, e19_42, v19_42, v19_43);
    let s19_44 = 0x6a3dbfd7e2dd947e9a61e2cdbaaeaee9627bdbb007eebfd5a829180009babddeint;
    let v19_44 = 0x6a9e922db1edc7bf509452c97e26b0068cafed0c180e2e76a8cd350fc28f61e3int;
    let e19_44 = lemma_mpow_double_next(b19, n, e19_43, v19_43, s19_44, v19_44);
    let s19_45 = 0x4b52c346ec3024748b8daad2d42fb6df62437628008c5a05c6d645de705dc3a7int;
    let v19_45 = 0x4610562c4f97b33eb4b4e2a76311d852d55b398958781c254dd80215bbbe3290int;
    let e19_45 = lemma_mpow_double_next(b19, n, e19_44, v19_44, s19_45, v19_45);
    let s19_46 = 0x305590c07b39f5d8b4d7494025ef85596c5ddf61a0dde015628730d05e0b7d11int;
    let v19_46 = 0x45bae0a97d651c292187477a3b1171f6c3db1feb8ffb9194c580673822417af6int;
    let e19_46 = lemma_mpow_double_next(b19, n, e19_45, v19_45, s19_46, v19_46);
    let s19_47 = 0x5fdc47ed5b0ca35d796538000ecb22a9f56468512fcf309170aa2578b959f82int;
    let v19_47 = 0x18254dc3de7c361874040842a847896fc2224a7bcf2c20a0a2fc7afd0f7e2f5fint;
    let e19_47 = lemma_mpow_double_next(b19, n, e19_46, v19_46, s19_47, v19_47);
    let v19_48 = 0x43041f5a7b9e9ef4afa3015b54cb46cd5c49002db2009c6e3220125d0b16a230int;
    let e19_48 = lemma_mpow_double(b19, n, e19_47, v19_47, v19_48);
    let s19_49 = 0x5ccd226cc0ee04bbdb0c03cc100b87d9d6da74be17fcd800ff42845e3848c61aint;
    let v19_49 = 0x247c988bc0c7517a7d4444c31e6c64a52a287aafb554c9e8df4caa1a8bc8d993int;
    let e19_49 = lemma_mpow_double_next(b19, n, e19_48, v19_48, s19_49, v19_49);
    let s19_50 = 0x55c4884654c9d1ebac751c21b3335aa735de0f016a8af2f0d8af1398f4b726eint;
    let v19_50 = 0x2250fb84a2d42c266838726fa881308ea8a7cf779af7f5da205c65f283801e14int;
    let e19_50 = lemma_mpow_double_next(b19, n, e19_49, v19_49, s19_50, v19_50);
    let s19_51 = 0x5cdf78ac815de83113e4801996b3e50b38c54adffd407ee9e6ffecc06b0db4b7int;
    let v19_51 = 0x1e8c0e2e34ee363521d47dda5bdf165feaa0253175584f827e1c28f7cdf8322dint;
    let e19_51 = lemma_mpow_double_next(b19, n, e19_50, v19_50, s19_51, v19_51);
    let s19_52 = 0x2af1578125ea1863b4d05426a57a890add48fd8d1cba5fe937690c9ee8ce6f9bint;
    let v19_52 = 0x68b392f866761155c41f606a9ea8539c332eb0b1bc07b8ce688932350ad68a1fint;
    let e19_52 = lemma_mpow_double_next(b19, n, e19_51, v19_51, s19_52, v19_52);
    let v19_53 = 0x1fc63ad8755db4a2f552d6508efb5a3caba535dd8827b488b78628f6716588beint;
    let e19_53 = lemma_mpow_double(b19, n, e19_52, v19_52, v19_53);
    let v19_54 = 0x233f32ad2c4c1bc3039d195b8bc66324775d7adafbaaff316449dd07a2a652e5int;
    let e19_54 = lemma_mpow_double(b19, n, e19_53, v19_53, v19_54);
    let v19_55 = 0x6246652572c4664761d315d9eb2af66fcd03f9aa801a537e94f0d14dc9c177dbint;
    let e19_55 = lemma_mpow_double(b19, n, e19_54, v19_54, v19_55);
    let v19_56 = 0x4471084bea543ac567742f2d30d824c182648ae4db498b3b613b9d956acc4fc1int;
    let e19_56 = lemma_mpow_double(b19, n, e19_55, v19_55, v19_56);
    let s19_57 = 0x262339f4a98d6a19c35ef96051365a1c698e2b01d36cb4c293bc70efdda38b27int;
    let v19_57 = 0x19e8460ac2b1e5c765a696e3914f48fe69f6473733b0efa3957bdd6ce35502f6int;
    let e19_57 = lemma_mpow_double_next(b19, n, e19_56, v19_56, s19_57, v19_57);
    let s19_58 = 0x241d5d7adb4bc67354320dfeb8ad45fffea2e5d88b35bea1975c6e33e91aa43aint;
    let v19_58 = 0x1ba728362262a2bf5702d59f0211a68942abeb4bb86c357de8e8a381249d3beint;
    let e19_58 = lemma_mpow_double_next(b19, n, e19_57, v19_57, s19_58, v19_58);
    let s19_59 = 0x24ba03496af19971b308da76cfa7b63fb76a56c1c82de172288ce20a93d3b43fint;
    let v19_59 = 0x1175896a8b78a90149c09bc56a9780434e3254afcfe72757e28d0a1514adf382int;
    let e19_59 = lemma_mpow_double_next(b19, n, e19_58, v19_58, s19_59, v19_59);
    let s19_60 = 0xb12c0f3b4ef9899022f28be6de20554cf316621f1ef0d535f89ca958dac3573int;
    let v19_60 = 0x16dc1770901111c7d2ef813f2967530116898afa20670e608790ada6552b47f1int;
    let e19_60 = lemma_mpow_double_next(b19, n, e19_59, v19_59, s19_60, v19_60);
    lemma_mpow_mul(g, 0x98fc71ed18308f7e6f75d500000000nat, 0x1b1c5cc9949def0fnat, n);
}

/// A power of seven modulo the order.
proof fn lemma_order_power_20()
    ensures
        mpow(0x7int, 0x300f030e9e000cb5822fe1d39dfd8723956566d3a146756794d00000000nat, modulus()) == 0x6d8ceec08003f0a44f6c0b36a44ab7b7576b0589fa20719fc0b3e86b24aeeacfint,
{
    let n = 0x73eda753299d7d483339d80809a1d80553bda402fffe5bfeffffffff00000001int;
    let g = 7int;
    lemma_order_power_19();
    let b20 = 0x16dc1770901111c7d2ef813f2967530116898afa20670e608790ada6552b47f1int;
    lemma_mpow_first(b20, n);
    let v20_1 = 0x71bc452c1b68d6865a46bca784700b400d2cd4de33cf5d099b726dd241032ebeint;
    let e20_1 = lemma_mpow_double(b20, n, 1nat, b20, v20_1);
    let s20_2 = 0x45e734015e134b72277a1672f4e63bbc97a9cb6d89e3f6020914cef6214e8e28int;
    let v20_2 = 0x5de86f1d735bbc488e896203b6bc432c95d067e8d6f13b0a360c0f32fe42ef62int;
    let e20_2 = lemma_mpow_double_next(b20, n, e20_1, v20_1, s20_2, v20_2);
    let s20_3 = 0x51fc143829ef028143474ac90d49d2c9cf13f7ec3cf36709a19b172f852394beint;
    let v20_3 = 0xafd31d6daa6e667b843e120e39ccc636a8ff99f29402eceb0e27370046b6449int;
    let e20_3 = lemma_mpow_double_next(b20, n, e20_2, v20_2, s20_3, v20_3);
    let s20_4 = 0xd04f170b7fe567dbc9cc293b98c94a92462dc045ccb903f4d5ba04d27e8cd6aint;
    let v20_4 = 0x6961d3cf8c2d198b4c0b560e664cf659538b84d9e8cb6586b3876a6e3f62b191int;
    let e20_4 = lemma_mpow_double_next(b20, n, e20_3, v20_3, s20_4, v20_4);
    let s20_5 = 0x44cb0a8085a3f87b72ced851074dce99daad4d43eb9627088a21d51eac974707int;
    let v20_5 = 0x2f8e74b2724179dbc5e048e090ed622d462134a2a5be0a8e9fc1d5fa69ee4f46int;
    let e20_5 = lemma_mpow_double_next(b20, n, e20_4, v20_4, s20_5, v20_5);
    let v20_6 = 0x796598265a6bced0065d5977836dd4b4fdb7968a6594737b74b4b28ee9617dint;
    let e20_6 = lemma_mpow_double(b20, n, e20_5, v20_5, v20_6);
    let s20_7 = 0x657838ca856c6fa1133a831bc1ba507502b984acc598d680b47efff96afd9eb7int;
    let v20_7 = 0x69eedb9d3d6f618b4a4b05307845e1212d48690627ad6727751d910abd6cce30int;
    let e20_7 = lemma_mpow_double_next(b20, n, e20_6, v20_6, s20_7, v20_7);
    let s20_8 = 0x2b05ccbf2ffd335c4a5e278955f5bb283d403e9d4520abeaee41ce19c4244549int;
    let v20_8 = 0x6be29d10fb775ae631f96dda71f23655d68254eeb13eb6a75e8a73cff7b8976fint;
    let e20_8 = lemma_mpow_double_next(b20, n, e20_7, v20_7, s20_8, v20_8);
    let s20_9 = 0xa907ece733e2710026cca1167180aa015d4e49cbd862780038ea647ecff37f1int;
    let v20_9 = 0x38160256521ae3bb91352b22ada83523ff84675e2644a5002a62455e7c52a6e7int;
    let e20_9 = lemma_mpow_double_next(b20, n, e20_8, v20_8, s20_9, v20_9);
    let v20_10 = 0x46d83265be52f43d268a882e72cc958f4f15f6b1fc12fcad6a546a6522fbcbf9int;
    let e20_10 = lemma_mpow_double(b20, n, e20_9, v20_9, v20_10);
    let s20_11 = 0x6243637ffc34be7dd350f11d0ed4f67a620de07a73b190e7047a00a04450375eint;
    let v20_11 = 0x5f7898663e8a265a733c6716006f787d95b357f050415fd75db8404b001671edint;
    let e20_11 = lemma_mpow_double_next(b20, n, e20_10, v20_10, s20_11, v20_11);
    let s20_12 = 0x1b049a4f639018ac5e5c992701f4591b51af84492a0db5a2b5c313b0026bcc9bint;
    let v20_12 = 0x704ed4c9da6aab6aee0c97ff6cadf416a7b2aeb97cd3e09bbe07a4e356c3db11int;
    let e20_12 = lemma_mpow_double_next(b20, n, e20_11, v20_11, s20_12, v20_12);
    let v20_13 = 0x2a2dea94e8fc113beee8c988538e9636743d9ae7755cef609474b01d3ac06a5eint;
    let e20_13 = lemma_mpow_double(b20, n, e20_12, v20_12, v20_13);
    let v20_14 = 0x5f5ff3cdd63eb18636cd69640c4e147ce01eee4017b259c6d7162728448e4320int;
    let e20_14 = lemma_mpow_double(b20, n, e20_13, v20_13, v20_14);
    let v20_15 = 0x342fbaaf6874b180bab46683c683db8b36c7979f16e314993162c60e8c66abaeint;
    let e20_15 = lemma_mpow_double(b20, n, e20_14, v20_14, v20_15);
    let v20_16 = 0x6391c9bf6bcb70d9ba7817750655e0f4b233d7fd472479b614fd708195dc6432int;
    let e20_16 = lemma_mpow_double(b20, n, e20_15, v20_15, v20_16);
    let v20_17 = 0x5d867f409ad630a828f253dcacae22b166a855e887599b78802614fbb9e71abdint;
    let e20_17 = lemma_mpow_double(b20, n, e20_16, v20_16, v20_17);
    let v20_18 = 0x27e92120808995de2208d82fcb206aea92e1b2d845c606c88efad673f6129bb9int;
    let e20_18 = lemma_mpow_double(b20, n, e20_17, v20_17, v20_18);
    let s20_19 = 0x3b6d6c0183ee776fc34140ed258b4ed5c82c4dc99e145ad2ad891b5f6041d4e2int;
    let v20_19 = 0x34d717db3a801d46b88de17e5a8da3748c253c8227cc412c7cf4d0cbd30a47f4int;
    let e20_19 = lemma_mpow_double_next(b20, n, e20_18, v20_18, s20_19, v20_19);
    let s20_20 = 0x2dfa394f71bbf821c5f44fb807b4f1ae356879e9318a444dfa25e2ccdd90d677int;
    let v20_20 = 0x506fd467d399055447af93c8bf69a9a4a48854ac1721c80ff224225fe1dc7306int;
    let e20_20 = lemma_mpow_double_next(b20, n, e20_19, v20_19, s20_20, v20_20);
    let v20_21 = 0x605e7acf7b15d37cee7166bb88df090629fbe603d565da39f717dcfa0c13b8a6int;
    let e20_21 = lemma_mpow_double(b20, n, e20_20, v20_20, v20_21);
    let s20_22 = 0x175e480e432a82a271cda055f9a2394ae7478c781ddbe5b41a4af32d272fbfbfint;
    let v20_22 = 0x3c8e04f8be59296c3ece227c4011ca03950d9b5dec6093e3af383b02c6714c92int;
    let e20_22 = lemma_mpow_double_next(b20, n, e20_21, v20_21, s20_22, v20_22);
    let v20_23 = 0x3db3df806ef75a43ef8e7a191911a7c6d20de150dcf91dcdcb83de5454ea190dint;
    let e20_23 = lemma_mpow_double(b20, n, e20_22, v20_22, v20_23);
    let v20_24 = 0x2e73116d1e0efbe4d3d29f8dbe315b6676237dbe608075be5ef1f206d0f78b55int;
    let e20_24 = lemma_mpow_double(b20, n, e20_23, v20_23, v20_24);
    let s20_25 = 0xd452bfb8381e9412e0793272904e8f37a5e3f5bbc8bd179c96b9278e6946969int;
    let v20_25 = 0x63ec3a3557b78c7e624ed7dde46c0f0dacbcbc6ea0e0ce4e0c52c486512b4ffaint;
    let e20_25 = lemma_mpow_double_next(b20, n, e20_24, v20_24, s20_25, v20_25);
    let v20_26 = 0x5170ba92b9021617adeb845be5c1f9b051e6402168c8d3d3951cd018f885e4e6int;
    let e20_26 = lemma_mpow_double(b20, n, e20_25, v20_25, v20_26);
    let v20_27 = 0x3734959aaaf01c9b9cf5c0f37306bfc4201ad5f5346b3106126c9511cd19811int;
    let e20_27 = lemma_mpow_double(b20, n, e20_26, v20_26, v20_27);
    let s20_28 = 0x5ba622c3a6fe7111fb14c37702ae9170d7e3325811f6005c6c28f9f236ef2612int;
    let v20_28 = 0x136dd7e8de18581d1baee5f96d02c465c2a5ed0c50b9ce0a40b5ca91eb58553int;
    let e20_28 = lemma_mpow_double_next(b20, n, e20_27, v20_27, s20_28, v20_28);
    let s20_29 = 0x7176683cd7eb5d80890b2a0b74324f9425c502088c1e57d9358a9da06ac13aa4int;
    let v20_29 = 0x4fabdb86e984283ca4cde009c6b3c7cc359a6007c15aa7cc8979f30c41e5f6a2int;
    let e20_29 = lemma_mpow_double_next(b20, n, e20_28, v20_28, s20_29, v20_29);
    let v20_30 = 0x4023bde2179113d124e7129582962fdd709a34e0b69c53d8d458e091a48be00eint;
    let e20_30 = lemma_mpow_double(b20, n, e20_29, v20_29, v20_30);
    let v20_31 = 0x1113b8806898f3a778759faf5706fb9ac84776e4dcd0d5b09d956a4dc2750b50int;
    let e20_31 = lemma_mpow_double(b20, n, e20_30, v20_30, v20_31);
    let v20_32 = 0x3bff332fc851b4024a29e8700df4eb186e95e77fb89dcc176754b0c46b934478int;
    let e20_32 = lemma_mpow_double(b20, n, e20_31, v20_31, v20_32);
    let v20_33 = 0x14687ffb1cc2d51b12d8b09b7b81b0348fd72f47c6a8d1c4d0a9165c6e8eb938int;
    let e20_33 = lemma_mpow_double(b20, n, e20_32, v20_32, v20_33);
    let v20_34 = 0x5c42db1a27a7ef05f7e678b563ab056dd35cc3774e431ac22a567262dfc93d2cint;
    let e20_34 = lemma_mpow_double(b20, n, e20_33, v20_33, v20_34);
    let v20_35 = 0x1d58be8957111a706a0469f1fe3a814e07208fb6cec4e738997383908452fc6fint;
    let e20_35 = lemma_mpow_double(b20, n, e20_34, v20_34, v20_35);
    let v20_36 = 0x4d6d98ede524d57aa87ade77bce6e2b945041548cb8c72641f87a51ac4e5b856int;
    let e20_36 = lemma_mpow_double(b20, n, e20_35, v20_35, v20_36);
    let v20_37 = 0x6b70252eb1dce7ac4540c9a95ee46fc3144104efc8399f6f95c5cf23983dd2bdint;
    let e20_37 = lemma_mpow_double(b20, n, e20_36, v20_36, v20_37);
    let v20_38 = 0x38d4817927648ec438c2d97cd8052d99854456d1abffb1e9806dd1ef49e41d62int;
    let e20_38 = lemma_mpow_double(b20, n, e20_37, v20_37, v20_38);
    let v20_39 = 0x42f99bfbf8b7a8d299a9609181c8e9194e7ae8f971e157a86dca4ed92c1a55bcint;
    let e20_39 = lemma_mpow_double(b20, n, e20_38, v20_38, v20_39);
    let s20_40 = 0x1a2dbcbbbb4016930c7e00e0bdfdb1b5d1645e650f4b2a74827a34f5931f8c7eint;
    let v20_40 = 0x59c796a4765d11c4b629024a58e23eca985a50855fb542cefdcb2bdebf47ff16int;
    let e20_40 = lemma_mpow_double_next(b20, n, e20_39, v20_39, s20_40, v20_40);
    let v20_41 = 0x628ebdbe33d7c6111778c96fdb89a808505829d18d28281148b9cf2b31deef08int;
    let e20_41 = lemma_mpow_double(b20, n, e20_40, v20_40, v20_41);
    let s20_42 = 0x14a403b2ffb49032d7a723fc0fdfc7d03adbdce61ce42ff40104d96cc78d52c8int;
    let v20_42 = 0x2afb0ee535aba4ef195ad66d4393ee7867feb07d0cf143ebd60c416716882c54int;
    let e20_42 = lemma_mpow_double_next(b20, n, e20_41, v20_41, s20_42, v20_42);
    let s20_43 = 0x4f6a071380056cd9a719e3eade2da50606b1f01892d87d97454bc19c8da2e25cint;
    let v20_43 = 0x38d8ad5070359048087aea75fbe7200bcf85ea09a3a050c7bad809aaf71f94beint;
    let e20_43 = lemma_mpow_double_next(b20, n, e20_42, v20_42, s20_43, v20_43);
    let v20_44 = 0x3e3ae17d5b13861cd0bfd85541323f74b71dd5240df4b90097664e0bdbc19efint;
    let e20_44 = lemma_mpow_double(b20, n, e20_43, v20_43, v20_44);
    let v20_45 = 0x4880d2ea35d29126f8e10317de05fc5b4cdbff7caa6e8722ced007c06a90406fint;
    let e20_45 = lemma_mpow_double(b20, n, e20_44, v20_44, v20_45);
    let s20_46 = 0x3a0ce91d771d0572343690f278a73bdedc2f7443de92e0806b4d200e0d871a08int;
    let v20_46 = 0x6473da1848afa93ceb0fbfd4a650ef3801f98f257582e3b2661c0314525288c9int;
    let e20_46 = lemma_mpow_double_next(b20, n, e20_45, v20_45, s20_46, v20_46);
    let s20_47 = 0x15ead1536f14bddfc9e7660607eb4f8a999c77feb326bfbef37c29ce7f7e5fb0int;
    let v20_47 = 0x3fe7398ba5135bc9075acc565fe6f4957cd430eb169a0bdfae255d037e376c25int;
    let e20_47 = lemma_mpow_double_next(b20, n, e20_46, v20_46, s20_47, v20_47);
    let v20_48 = 0x462025ef4e8accf93de05d804569ccee455b68abb62fe1483ac995c780a36830int;
    let e20_48 = lemma_mpow_double(b20, n, e20_47, v20_47, v20_48);
    let s20_49 = 0x670b4ab9c3f1ba56060faabee1c4896cccc2fbbce30bd0d08311b4566f60a3e8int;
    let v20_49 = 0x1ec699f08b5414024635d48b856e419099f021af8d123f0e8fed4c37658f2e40int;
    let e20_49 = lemma_mpow_double_next(b20, n, e20_48, v20_48, s20_49, v20_49);
    let v20_50 = 0xf19eff506207f140e584c06115c25aed2c32faa0aea78c012fb2a861b9bdee7int;
    let e20_50 = lemma_mpow_double(b20, n, e20_49, v20_49, v20_50);
    let s20_51 = 0x3dd11c6adc3c3b384507b77975a98916e4ff9fc3f19ebe284286c03c551d1306int;
    let v20_51 = 0x28303b348bf5c2119b5a54940181ca69b5ab638bf55f8ee31371d7f0fa9b985fint;
    let e20_51 = lemma_mpow_double_next(b20, n, e20_50, v20_50, s20_51, v20_51);
    let s20_52 = 0x5802a13a2c2f3d81613e7b39f43036291fc9a7a6a607a1795abc06b80ea999f4int;
    let v20_52 = 0x3aa29c7979a42ebebaeeeecafb71281fdfcd7dd694ff38139d6c2131bb6680a5int;
    let e20_52 = lemma_mpow_double_next(b20, n, e20_51, v20_51, s20_52, v20_52);
    let s20_53 = 0x4af11cebceb8c1d37b1d2c453b59feb061d3ecdff08269efea368ef429ef23f3int;
    let v20_53 = 0x6d8ceec08003f0a44f6c0b36a44ab7b7576b0589fa20719fc0b3e86b24aeeacfint;
    let e20_53 = lemma_mpow_double_next(b20, n, e20_52, v20_52, s20_53, v20_53);
    lemma_mpow_mul(g, 0x10339313a772bfd70ed2a7e501da29df2ac27b00000000nat, 0x2f760693002cd7nat, n);
}

/// A power of seven modulo the order.
proof fn lemma_order_power_21()
    ensures
        mpow(0x7int, 0x2714e3d0630e60ff610661ee4ea83a3cef87b46791900000000nat, modulus()) == 0x322d80ea945f6dee1a3a40c719acb7656fe1e22649083493f8d2e84f0dce119eint,
{
    let n = 0x73eda753299d7d483339d80809a1d80553bda402fffe5bfeffffffff00000001int;
    let g = 7int;
    lemma_order_power_19();
    let b21 = 0x16dc1770901111c7d2ef813f2967530116898afa20670e608790ada6552b47f1int;
    lemma_mpow_first(b21, n);
    let v21_1 = 0x71bc452c1b68d6865a46bca784700b400d2cd4de33cf5d099b726dd241032ebeint;
    let e21_1 = lemma_mpow_double(b21, n, 1nat, b21, v21_1);
    let v21_2 = 0x45e734015e134b72277a1672f4e63bbc97a9cb6d89e3f6020914cef6214e8e28int;
    let e21_2 = lemma_mpow_double(b21, n, e21_1, v21_1, v21_2);
    let s21_3 = 0x32af6d20eee04112f8d7544ae3308c68193db68d2e5f252882563516d85ac5cdint;
    let v21_3 = 0x1279cf8fc7aa6a455c800e9d3c6bd6810ca14c9849a97ee2c4871d103ff25244int;
    let e21_3 = lemma_mpow_double_next(b21, n, e21_2, v21_2, s21_3, v21_3);
    let s21_4 = 0x4ca70561fe1ffe634c8c0753488f85631990ffc2e011d1a20242a6a2eb7af5d3int;
    let v21_4 = 0x6d5dff2500c6336f1436122f6c3bc1f0a18ac338bb808c946971dc21beb90ddeint;
    let e21_4 = lemma_mpow_double_next(b21, n, e21_3, v21_3, s21_4, v21_4);
    let v21_5 = 0x5824092ce0d4695a54c2bb9f814905e96f5b0091accd7dae3094c168863ef031int;
    let e21_5 = lemma_mpow_double(b21, n, e21_4, v21_4, v21_5);
    let s21_6 = 0x288d581f97b63aeae1d9a6a6c30d425378fc8ba49d80d7176fff559ea524ea04int;
    let v21_6 = 0x50c277bfee392451fdffa755e5ae6bfe522c0085db73d5e3b13ca276fbbe6701int;
    let e21_6 = lemma_mpow_double_next(b21, n, e21_5, v21_5, s21_6, v21_6);
    let v21_7 = 0x5d93e0bfad200ae0d2136bb5857c3eee21bdd88d1b5c85c47a2640a4125ce65eint;
    let e21_7 = lemma_mpow_double(b21, n, e21_6, v21_6, v21_7);
    let v21_8 = 0x28aedc3ff521f3d6ecc7c4b71f58288081b9ef504d8066967582fce6d010dabeint;
    let e21_8 = lemma_mpow_double(b21, n, e21_7, v21_7, v21_8);
    let s21_9 = 0x63b112c7ff2c9ae7382920a5f5f3166ba09852867b7e4530aa086f57cbb5a87eint;
    let v21_9 = 0x4edac1f2b5d81c10995b11a68c2b69eb68ff55891b767a758db830fdaa4b30a8int;
    let e21_9 = lemma_mpow_double_next(b21, n, e21_8, v21_8, s21_9, v21_9);
    let s21_10 = 0xf1fc28d339e9c0d20ce66e87b0d756fde45e39be13ee5113434c8b8ab3d4bbbint;
    let v21_10 = 0x24583858db5fa876cef1d4a3ff63947ab6e8525f8037aa8dfc0b6ce243746238int;
    let e21_10 = lemma_mpow_double_next(b21, n, e21_9, v21_9, s21_10, v21_10);
    let v21_11 = 0x2afb9e3c5af17a94d9ff9fe45eab37f6d8f6ee92a42756b9727c3b79cd923c9fint;
    let e21_11 = lemma_mpow_double(b21, n, e21_10, v21_10, v21_11);
    let v21_12 = 0x2526a8cfbe674347e554d0024a57034b589349d483b6ce41185138aa176c5f51int;
    let e21_12 = lemma_mpow_double(b21, n, e21_11, v21_11, v21_12);
    let v21_13 = 0x379141aa4abd8c50903a9f451b284a8b3fe98a1375bd68b55a7cbe1bf2a00541int;
    let e21_13 = lemma_mpow_double(b21, n, e21_12, v21_12, v21_13);
    let v21_14 = 0x377bf27fd6eef18c4a0696a1bd2fb111e771db5c0553b420662e655ceb5e22f3int;
    let e21_14 = lemma_mpow_double(b21, n, e21_13, v21_13, v21_14);
    let s21_15 = 0xaa091654f0233b19cb2a45796a700c391a5695b19021c9099886777567477feint;
    let v21_15 = 0x4550e44ad35896b7369593d628fe25882f9db3009fe381c814181700c6c7dc27int;
    let e21_15 = lemma_mpow_double_next(b21, n, e21_14, v21_14, s21_15, v21_15);
    let s21_16 = 0x1857fb3da618b4cacd4ff01e526018d74fc48f40a9cc3a699561e570c468eaf1int;
    let v21_16 = 0x3f9bc440a21d77f9840e34e755ce95c04eaf767a408bc1bed12cace149afbe9dint;
    let e21_16 = lemma_mpow_double_next(b21, n, e21_15, v21_15, s21_16, v21_16);
    let s21_17 = 0x34aabc5a450351b334338567d67dc29d31658f0cf551f7714b73b4a7a24d8c68int;
    let v21_17 = 0x595b8d3c28fe13e61cd8d1f40f50c634dc651a1d19554279dfdb66bb27d6ac5int;
    let e21_17 = lemma_mpow_double_next(b21, n, e21_16, v21_16, s21_17, v21_17);
    let s21_18 = 0x1ccfb9cc05378d362192c1bcb801d42c5b3c306e30129884b7e2a090308ea3a8int;
    let v21_18 = 0x5efbe66098994b19866614fe59b298968d9abb46e2791d15fd6089f88e25204bint;
    let e21_18 = lemma_mpow_double_next(b21, n, e21_17, v21_17, s21_18, v21_18);
    let v21_19 = 0x43535ffd915736245dd70d832cd0d38383c01dee9071b93e97ff0eb15fdd8c53int;
    let e21_19 = lemma_mpow_double(b21, n, e21_18, v21_18, v21_19);
    let s21_20 = 0x4ea222460cce0f310c5ffaf46edae78658bc685421f2f3987b60510bd3610094int;
    let v21_20 = 0x66c7c155dba2e6795cb31626fc2fcb7c959e87cd666cf9dcb9e74004fbc549f0int;
    let e21_20 = lemma_mpow_double_next(b21, n, e21_19, v21_19, s21_20, v21_20);
    let s21_21 = 0x26dc2a01da480e1243d7b492dcf0292d5875a9f89925e57aa820912d1a6e1708int;
    let v21_21 = 0x322d80ea945f6dee1a3a40c719acb7656fe1e22649083493f8d2e84f0dce119eint;
    let e21_21 = lemma_mpow_double_next(b21, n, e21_20, v21_20, s21_21, v21_21);
    lemma_mpow_mul(g, 0x10339313a772bfd70ed2a7e501da29df2ac27b00000000nat, 0x26987bnat, n);
}

/// A power of seven modulo the order.
proof fn lemma_order_power_22()
    ensures
        mpow(0x7int, 0x251733863f2196da0733fe157650f6f26ee230ebffbb9a13dd00000000nat, modulus()) == 0x3e39ee7633914a22fac6ea2b1dcd35740df1759a75ebe390042407c065689b64int,
{
    let n = 0x73eda753299d7d483339d80809a1d80553bda402fffe5bfeffffffff00000001int;
    let g = 7int;
    lemma_order_power_21();
    let b22 = 0x322d80ea945f6dee1a3a40c719acb7656fe1e22649083493f8d2e84f0dce119eint;
    lemma_mpow_first(b22, n);
    let s22_1 = 0x2ce9bf41434527112d80fc760d62c9eca8641f54d7b61b7ddd2bbb7750067e2aint;
    let v22_1 = 0x6b7d73e863ebae6c54516c1d0d6cb900387818f807fc6dd74bf29e7cf8e79380int;
    let e22_1 = lemma_mpow_double_next(b22, n, 1nat, b22, s22_1, v22_1);
    let s22_2 = 0x63c8cef5b401e63de2d3485f8a52e2251167ee748585d041d2dd2bea1f987cc7int;
    let v22_2 = 0x1d89f26da154c1792ce3728c400dd25d1a9a36169e6773eef2e6e75f18f44c69int;
    let e22_2 = lemma_mpow_double_next(b22, n, e22_1, v22_1, s22_2, v22_2);
    let s22_3 = 0x620d8d1c7f5bca60049b6215b6992ae1230dde1ed67f8592868c819748c54129int;
    let v22_3 = 0xaa73b97c423d93cef4827f6ca76819ea8628b7c455846be3bed26db875d79e1int;
    let e22_3 = lemma_mpow_double_next(b22, n, e22_2, v22_2, s22_3, v22_3);
    let v22_4 = 0x4342182c59ea7895313d2fc5504919d932edc5f34649915a1776e495e2ed2442int;
    let e22_4 = lemma_mpow_double(b22, n, e22_3, v22_3, v22_4);
    let v22_5 = 0x13405e8521d80027d267980c0acc7a9cf1c391887ae41961bd89616d2145c457int;
    let e22_5 = lemma_mpow_double(b22, n, e22_4, v22_4, v22_5);
    let s22_6 = 0x296cc584d5248c0d4bf7cef72df1e2c5a59af3ab8769a84b9772fa51cb83632cint;
    let v22_6 = 0x4575ff14fc849f672c84883cf5a8bc2652591f5e676ca6e04cd5b49173b7c87bint;
    let e22_6 = lemma_mpow_double_next(b22, n, e22_5, v22_5, s22_6, v22_6);
    let v22_7 = 0x61bc4515bf77fafc40f2b67eb7854e86ed5781f875c9df36c3ea9d738fa0762int;
    let e22_7 = lemma_mpow_double(b22, n, e22_6, v22_6, v22_7);
    let s22_8 = 0x5fdac165a24013b6536a3f23dca5fb968fe655d6eeae8b2d9157a23c696f54cbint;
    let v22_8 = 0x3c83e811189fefd672df92716f3685efe96faaf6f5af0d961bda4c5201ad6165int;
    let e22_8 = lemma_mpow_double_next(b22, n, e22_7, v22_7, s22_8, v22_8);
    let s22_9 = 0x6c38a412983f55e4202a07aefaa18b5bd88c5d84bee456e0a5f2fb8a0176683bint;
    let v22_9 = 0x51d384aa11be0a3fc333841b529ff472f374e91c41518027c92afe005985d1aint;
    let e22_9 = lemma_mpow_double_next(b22, n, e22_8, v22_8, s22_9, v22_9);
    let s22_10 = 0x803196f2e10bea82d10add99b67b5175e19610e55992f18736c62a73c04798aint;
    let v22_10 = 0x3f67ce67df4e3911c6e35b84cf480633dc6435957dab8a41848574f18f96ebfdint;
    let e22_10 = lemma_mpow_double_next(b22, n, e22_9, v22_9, s22_10, v22_10);
    let s22_11 = 0x2754e154b4df5ce9b4dd6e99ff936df3a3eb2e9961387dd57b5b2a911f4479aint;
    let v22_11 = 0x5382e6a0c9c2dc874ec21146dd11242c55ae6135b3f54b00f9ff890c0b9f4e69int;
    let e22_11 = lemma_mpow_double_next(b22, n, e22_10, v22_10, s22_11, v22_11);
    let v22_12 = 0xc2cffd2d3bf85f06735764fd51b723e41b9d8a2d058ad1d41d908d12b6466e0int;
    let e22_12 = lemma_mpow_double(b22, n, e22_11, v22_11, v22_12);
    let s22_13 = 0x1eb2577f96a4584ec581bbcd8a66ccc326bc48cc392676577b95adde9b6b4febint;
    let v22_13 = 0x4b28f6bfe791ea894be56d2cfdf56ef11d8ce2c9ede99c460afed05799db300eint;
    let e22_13 = lemma_mpow_double_next(b22, n, e22_12, v22_12, s22_13, v22_13);
    let v22_14 = 0x56a42c7746ba9c62eefbf8e183c092f0bab5f2a768a3cc28a5863b0f75a39b0dint;
    let e22_14 = lemma_mpow_double(b22, n, e22_13, v22_13, v22_14);
    let s22_15 = 0x53fe6e7f1dfbf3df4a212e1d82394d4c75a8c5024a682424229a17d7bc93adc8int;
    let v22_15 = 0x3c56b31a8919ad227c84795d72a2ddd04f2e0b500eb4aeb7f05e03c4014a9956int;
    let e22_15 = lemma_mpow_double_next(b22, n, e22_14, v22_14, s22_15, v22_15);
    let v22_16 = 0x72f7ed3b6dcb314d5771377024423a7cccd47398891812da7ea45709cccecc4aint;
    let e22_16 = lemma_mpow_double(b22, n, e22_15, v22_15, v22_16);
    let s22_17 = 0x4297ad916206311ad8b881ea105aa5e42d79f7a3191f10d448683c77e311f027int;
    let v22_17 = 0x21fc77d69cbd263b3d28d70c6f88df53d2cbb40b6a4412ec663580efbf5fa113int;
    let e22_17 = lemma_mpow_double_next(b22, n, e22_16, v22_16, s22_17, v22_17);
    let v22_18 = 0x5610331423167d79e6f7be81a8587ec70d929ce77484f7617d44615e328fd025int;
    let e22_18 = lemma_mpow_double(b22, n, e22_17, v22_17, v22_18);
    let s22_19 = 0x5f93a214d3944e912136f67c30196e43fd92df3173f361a3b1612c9a928e375dint;
    let v22_19 = 0x5a8305ee379b6fc5bc9fa54854bd6bc8a44b4fa6eba617a9a8bc330b98778e00int;
    let e22_19 = lemma_mpow_double_next(b22, n, e22_18, v22_18, s22_19, v22_19);
    let v22_20 = 0xdbcf46b276422c2cb46dbde343a2eb1a3f4d096da5eec3c33a13da0bf642916int;
    let e22_20 = lemma_mpow_double(b22, n, e22_19, v22_19, v22_20);
    let s22_21 = 0x553e82d7e8717853beaa85e190ed2b5baffaeabe1ee98ba4e796464ea6a4dee3int;
    let v22_21 = 0x667c8befe471e545fb6f12e4417f0989a4a54b66aaf85cd06dc9c768cb01375dint;
    let e22_21 = lemma_mpow_double_next(b22, n, e22_20, v22_20, s22_21, v22_21);
    let s22_22 = 0xed4eace98eac720e30c7e8901a700e3c46f5d9c0a09edeb78ecacc24f537e2bint;
    let v22_22 = 0x6547d402f3d8c088a7709be65c4bf07b4bf4860f09084898e4225f6ff3a32dbdint;
    let e22_22 = lemma_mpow_double_next(b22, n, e22_21, v22_21, s22_22, v22_22);
    let v22_23 = 0x215a1b1c8dc5f2526a4c05d9b109620417e07a59a9d0bfc4e103a61d93a6d91bint;
    let e22_23 = lemma_mpow_double(b22, n, e22_22, v22_22, v22_23);
    let v22_24 = 0x409c7a947e0c6f6c7099106f1fa85c71f5081a9debe2885d807129556889b0int;
    let e22_24 = lemma_mpow_double(b22, n, e22_23, v22_23, v22_24);
    let s22_25 = 0x44292edc3505ec7db3363a9496c315fad1674ace8683075c4272835cebc5a3ceint;
    let v22_25 = 0x4c29f32461ba461671dfd9a4df8934dbcd17e14e565da31948a7fad43e57b69int;
    let e22_25 = lemma_mpow_double_next(b22, n, e22_24, v22_24, s22_25, v22_25);
    let v22_26 = 0x5614f3f4cf05170e6fe9afda06a5efa047ce8b07c549d74bdd66364a465e403aint;
    let e22_26 = lemma_mpow_double(b22, n, e22_25, v22_25, v22_26);
    let s22_27 = 0x41fb857c52d7236e1db6e2b6c114aee6b576d9cfd30c7ee4bde20da78e941b73int;
    let v22_27 = 0x3e39ee7633914a22fac6ea2b1dcd35740df1759a75ebe390042407c065689b64int;
    let e22_27 = lemma_mpow_double_next(b22, n, e22_26, v22_26, s22_27, v22_27);
    lemma_mpow_mul(g, 0x2714e3d0630e60ff610661ee4ea83a3cef87b46791900000000nat, 0xf2f5565nat, n);
}

/// A power of seven modulo the order.
proof fn lemma_order_power_23()
    ensures
        mpow(0x7int, 0x7a26b4feb2bc9fde20c8df96908edbb3ba7be95fffff22b9300000000nat, modulus()) == 0x4a7a5acf5dc0e762414782ae22b4119ca76fee9d4c748ed263a7435fa7fde54fint,
{
    let n = 0x73eda753299d7d483339d80809a1d80553bda402fffe5bfeffffffff00000001int;
    let g = 7int;
    lemma_order_power_21();
    let b23 = 0x322d80ea945f6dee1a3a40c719acb7656fe1e22649083493f8d2e84f0dce119eint;
    lemma_mpow_first(b23, n);
    let s23_1 = 0x2ce9bf41434527112d80fc760d62c9eca8641f54d7b61b7ddd2bbb7750067e2aint;
    let v23_1 = 0x6b7d73e863ebae6c54516c1d0d6cb900387818f807fc6dd74bf29e7cf8e79380int;
    let e23_1 = lemma_mpow_double_next(b23, n, 1nat, b23, s23_1, v23_1);
    let v23_2 = 0x63c8cef5b401e63de2d3485f8a52e2251167ee748585d041d2dd2bea1f987cc7int;
    let e23_2 = lemma_mpow_double(b23, n, e23_1, v23_1, v23_2);
    let v23_3 = 0x6bfc1bb30c96fdaf5ea86c5c0547b0517c4a989dc83433794d32737c6258e56bint;
    let e23_3 = lemma_mpow_double(b23, n, e23_2, v23_2, v23_3);
    let s23_4 = 0x451af3e903ea5ebda18df3a817ae225443442e22ac2a0a1869a4d7eb29cea97bint;
    let v23_4 = 0x519498dfad08c25fff8cd1700eec42bda26c934f05529bafc6292ed96d5db997int;
    let e23_4 = lemma_mpow_double_next(b23, n, e23_3, v23_3, s23_4, v23_4);
    let v23_5 = 0x2f2c26b034c4715d98711c259846ab2d059d067c47670bc5ce2011f4d6b86743int;
    let e23_5 = lemma_mpow_double(b23, n, e23_4, v23_4, v23_5);
    let v23_6 = 0x328734ece0476d82a42fa7ef68bbe9b7de304c3aaf2362e2abe05b57c4de4f2eint;
    let e23_6 = lemma_mpow_double(b23, n, e23_5, v23_5, v23_6);
    let v23_7 = 0x50d8eac4deec0d069de442446e66b7f22816fe2f9e799d8f3c2fe02b51daa6a7int;
    let e23_7 = lemma_mpow_double(b23, n, e23_6, v23_6, v23_7);
    let v23_8 = 0x6e6a6c378cdd5d7a88e683409f6e7200c965befb43467b4f6ad462840bf72992int;
    let e23_8 = lemma_mpow_double(b23, n, e23_7, v23_7, v23_8);
    let v23_9 = 0x440fcc7a28e507875849ea9e265cf908dbd042fee909358435864c7547820cfeint;
    let e23_9 = lemma_mpow_double(b23, n, e23_8, v23_8, v23_9);
    let v23_10 = 0x407b33cde77e9d9af1029c8d6c246cdae9d439d30c0600af05bd2df7a736d187int;
    let e23_10 = lemma_mpow_double(b23, n, e23_9, v23_9, v23_10);
    let v23_11 = 0x27ebd337b0869d366e4986cdd5dd812cea0cccf734a22b58b3061893c2a8a4a6int;
    let e23_11 = lemma_mpow_double(b23, n, e23_10, v23_10, v23_11);
    let s23_12 = 0x12141e2f59e3e2f0ee3a4fe71d80d846e6ab747f9323befe19dd762c06062a90int;
    let v23_12 = 0x5c5baba8773645a0146d1329711861b984160ef8bdeb496d0afd8ea6d5de5754int;
    let e23_12 = lemma_mpow_double_next(b23, n, e23_11, v23_11, s23_12, v23_12);
    let v23_13 = 0x6c933763b1c627392f6bfb791a84da4223b4b8b7e07f5f1c0a4a9054991a84b0int;
    let e23_13 = lemma_mpow_double(b23, n, e23_12, v23_12, v23_13);
    let v23_14 = 0x5e5ac223eea775bd17e8224dfa2eba5562935fcc8231c32b0692da0c640c1e8cint;
    let e23_14 = lemma_mpow_double(b23, n, e23_13, v23_13, v23_14);
    let v23_15 = 0x5ec4df71c6e5e4e37ca64864367ddf3a0f3b79f83ed5b711c11e568ec9c2e50int;
    let e23_15 = lemma_mpow_double(b23, n, e23_14, v23_14, v23_15);
    let s23_16 = 0x6c0dbe205158ca3178cd3785bef3b87f61e686d6d28611c392f7c3b281595cacint;
    let v23_16 = 0x5eed63c4f3af7be073a20b56fae492a1f143957dbc0d57cb42029bf0e31c2353int;
    let e23_16 = lemma_mpow_double_next(b23, n, e23_15, v23_15, s23_16, v23_16);
    let s23_17 = 0x429fec3829cb582881263735259f726fa0f792de14fdb164fe70b02dfb20c5cint;
    let v23_17 = 0x53f2d5796d8846f2e8ee4370afe89a2a702940fc3e8a486395f81998ddad0a07int;
    let e23_17 = lemma_mpow_double_next(b23, n, e23_16, v23_16, s23_17, v23_17);
    let s23_18 = 0x2f3688fe8cf6985f0a6b4e4b04e0572bb5ae4092618696ee0b971877a6411700int;
    let v23_18 = 0x2b5dfb593f974f069c0ad3cd31111fd4d917aa2608222b94b4c6d56e22f473d3int;
    let e23_18 = lemma_mpow_double_next(b23, n, e23_17, v23_17, s23_18, v23_18);
    let v23_19 = 0x305ade5879a78168907f56e25ae96459f7900e0edc9fcd7d4db4ab8318007cc8int;
    let e23_19 = lemma_mpow_double(b23, n, e23_18, v23_18, v23_19);
    let v23_20 = 0x6108f5006fb96e18f816400b1da6d20dfd418189a699390153c3e507ec131ecbint;
    let e23_20 = lemma_mpow_double(b23, n, e23_19, v23_19, v23_20);
    let v23_21 = 0x2ba7ceb291763908eb6288eef638f625db6288cafdf367b9a38e14f2016a9191int;
    let e23_21 = lemma_mpow_double(b23, n, e23_20, v23_20, v23_21);
    let s23_22 = 0x49ee154cbafe84179bf018709cbdd354028dc795bbdff7e50e1708677206f12cint;
    let v23_22 = 0x664fd9cfd4fb4842a7fe770668c4e75a89031146b1920a638dce22f3a85b929aint;
    let e23_22 = lemma_mpow_double_next(b23, n, e23_21, v23_21, s23_22, v23_22);
    let v23_23 = 0x3ba72e3b5d340bb347b4c326badd0806d9e0466c0bf42723c58a9558631d7b14int;
    let e23_23 = lemma_mpow_double(b23, n, e23_22, v23_22, v23_23);
    let s23_24 = 0x5e8e8f14136e1a07ba16a0a60616a5ff376734af01540749f16df6c798f7481dint;
    let v23_24 = 0x38c3b890b16f56b96d977b6629b9b557261ad5087c432e0c406d98d5b9bc1cccint;
    let e23_24 = lemma_mpow_double_next(b23, n, e23_23, v23_23, s23_24, v23_24);
    let s23_25 = 0x445d15a2862c22b4a956659ba7c452d110297554d6e68027fc0ca37a4822b7b5int;
    let v23_25 = 0x4a7a5acf5dc0e762414782ae22b4119ca76fee9d4c748ed263a7435fa7fde54fint;
    let e23_25 = lemma_mpow_double_next(b23, n, e23_24, v23_24, s23_25, v23_25);
    lemma_mpow_mul(g, 0x2714e3d0630e60ff610661ee4ea83a3cef87b46791900000000nat, 0x320238bnat, n);
}

/// The power of seven with the exponent of the order less one is one.
proof fn lemma_order_power_24()
    ensures
        mpow(7, (modulus() - 1) as nat, modulus()) == 1,
{
    let n = 0x73eda753299d7d483339d80809a1d80553bda402fffe5bfeffffffff00000001int;
    let g = 7int;
    lemma_order_power_4();
    let b24 = 0x73eda753299d7d483339d80809a1d80553bda402fffe5bfeffffffff00000000int;
    lemma_mpow_first(b24, n);
    let v24_1 = 0x1int;
    let e24_1 = lemma_mpow_double(b24, n, 1nat, b24, v24_1);
    lemma_mpow_mul(g, 0x39f6d3a994cebea4199cec0404d0ec02a9ded2017fff2dff7fffffff80000000nat, 0x2nat, n);
}

/// The prime factors of the order less one, each as often as it divides:
/// 2^32 * 3 * 11 * 19 * 10177 * 125527 * 859267 * 906349^2 * 2508409 * 2529403 * 52437899 * 254760293^2.
pub open spec fn order_factors() -> Seq<int> {
    seq![
        2, 2, 2, 2, 2, 2, 2, 2, 2, 2, 2, 2, 2, 2, 2, 2, 2, 2, 2, 2, 2, 2, 2, 2, 2, 2, 2, 2, 2,
        2, 2, 2, 3, 11, 19, 10177, 125527, 859267, 906349, 906349, 2508409, 2529403, 52437899,
        254760293, 254760293,
    ]
}

/// Seven is a witness for the order.
pub proof fn lemma_order_witness()
    ensures
        witness(modulus(), 7, order_factors()),
{
    let n = 0x73eda753299d7d483339d80809a1d80553bda402fffe5bfeffffffff00000001int;
    let g = 7int;
    lemma_order_power_24();
    lemma_prime_2();
    lemma_order_power_4();
    lemma_prime_3();
    lemma_order_power_6();
    lemma_prime_11();
    lemma_order_power_7();
    lemma_prime_19();
    lemma_order_power_9();
    lemma_prime_10177();
    lemma_order_power_11();
    lemma_prime_125527();
    lemma_order_power_12();
    lemma_prime_859267();
    lemma_order_power_15();
    lemma_prime_906349();
    lemma_order_power_17();
    lemma_prime_2508409();
    lemma_order_power_18();
    lemma_prime_2529403();
    lemma_order_power_20();
    lemma_prime_52437899();
    lemma_order_power_22();
    lemma_prime_254760293();
    lemma_order_power_23();
    let fs0 = Seq::<int>::empty();
    lemma_witness_push(n, g, fs0, 2);
    let fs1 = fs0.push(2);
    lemma_witness_push(n, g, fs1, 2);
    let fs2 = fs1.push(2);
    lemma_witness_push(n, g, fs2, 2);
    let fs3 = fs2.push(2);
    lemma_witness_push(n, g, fs3, 2);
    let fs4 = fs3.push(2);
    lemma_witness_push(n, g, fs4, 2);
    let fs5 = fs4.push(2);
    lemma_witness_push(n, g, fs5, 2);
    let fs6 = fs5.push(2);
    lemma_witness_push(n, g, fs6, 2);
    let fs7 = fs6.push(2);
    lemma_witness_push(n, g, fs7, 2);
    let fs8 = fs7.push(2);
    lemma_witness_push(n, g, fs8, 2);
    let fs9 = fs8.push(2);
    lemma_witness_push(n, g, fs9, 2);
    let fs10 = fs9.push(2);
    lemma_witness_push(n, g, fs10, 2);
    let fs11 = fs10.push(2);
    lemma_witness_push(n, g, fs11, 2);
    let fs12 = fs11.push(2);
    lemma_witness_push(n, g, fs12, 2);
    let fs13 = fs12.push(2);
    lemma_witness_push(n, g, fs13, 2);
    let fs14 = fs13.push(2);
    lemma_witness_push(n, g, fs14, 2);
    let fs15 = fs14.push(2);
    lemma_witness_push(n, g, fs15, 2);
    let fs16 = fs15.push(2);
    lemma_witness_push(n, g, fs16, 2);
    let fs17 = fs16.push(2);
    lemma_witness_push(n, g, fs17, 2);
    let fs18 = fs17.push(2);
    lemma_witness_push(n, g, fs18, 2);
    let fs19 = fs18.push(2);
    lemma_witness_push(n, g, fs19, 2);
    let fs20 = fs19.push(2);
    lemma_witness_push(n, g, fs20, 2);
    let fs21 = fs20.push(2);
    lemma_witness_push(n, g, fs21, 2);
    let fs22 = fs21.push(2);
    lemma_witness_push(n, g, fs22, 2);
    let fs23 = fs22.push(2);
    lemma_witness_push(n, g, fs23, 2);
    let fs24 = fs23.push(2);
    lemma_witness_push(n, g, fs24, 2);
    let fs25 = fs24.push(2);
    lemma_witness_push(n, g, fs25, 2);
    let fs26 = fs25.push(2);
    lemma_witness_push(n, g, fs26, 2);
    let fs27 = fs26.push(2);
    lemma_witness_push(n, g, fs27, 2);
    let fs28 = fs27.push(2);
    lemma_witness_push(n, g, fs28, 2);
    let fs29 = fs28.push(2);
    lemma_witness_push(n, g, fs29, 2);
    let fs30 = fs29.push(2);
    lemma_witness_push(n, g, fs30, 2);
    let fs31 = fs30.push(2);
    lemma_witness_push(n, g, fs31, 2);
    let fs32 = fs31.push(2);
    lemma_witness_push(n, g, fs32, 3);
    let fs33 = fs32.push(3);
    lemma_witness_push(n, g, fs33, 11);
    let fs34 = fs33.push(11);
    lemma_witness_push(n, g, fs34, 19);
    let fs35 = fs34.push(19);
    lemma_witness_push(n, g, fs35, 10177);
    let fs36 = fs35.push(10177);
    lemma_witness_push(n, g, fs36, 125527);
    let fs37 = fs36.push(125527);
    lemma_witness_push(n, g, fs37, 859267);
    let fs38 = fs37.push(859267);
    lemma_witness_push(n, g, fs38, 906349);
    let fs39 = fs38.push(906349);
    lemma_witness_push(n, g, fs39, 906349);
    let fs40 = fs39.push(906349);
    lemma_witness_push(n, g, fs40, 2508409);
    let fs41 = fs40.push(2508409);
    lemma_witness_push(n, g, fs41, 2529403);
    let fs42 = fs41.push(2529403);
    lemma_witness_push(n, g, fs42, 52437899);
    let fs43 = fs42.push(52437899);
    lemma_witness_push(n, g, fs43, 254760293);
    let fs44 = fs43.push(254760293);
    lemma_witness_push(n, g, fs44, 254760293);
    let fs45 = fs44.push(254760293);
    assert(fs45 =~= order_factors());
    assert(product(fs45) == n - 1);
}

/// The order of the groups is prime.
pub proof fn lemma_order_prime()
    ensures
        is_prime(modulus()),
{
    lemma_order_witness();
    lemma_witness_prime(modulus(), 7, order_factors());
}

/// Every residue but zero has an inverse modulo the order.
pub proof fn lemma_order_inverses(a: int)
    requires
        0 < a < modulus(),
    ensures
        has_inverse(a, modulus()),
{
    lemma_order_witness();
    lemma_witness_inverses(modulus(), 7, order_factors(), a);
}

} // verus!
